//! The referral leaderboard as shown to users: ranks, medals and masked
//! names.

use vstd::prelude::*;
use vstd::string::StringSliceAdditionalSpecFns;
use vstd::utf8::{decode_utf8, encode_utf8, encode_utf8_decode_utf8, is_char_boundary};

verus! {

/// A referrer and how many users they brought in.
#[derive(Debug, Clone)]
pub struct LeaderboardEntry {
    pub username: Option<String>,
    pub referral_count: i64,
}

/// One line of the leaderboard as displayed.
#[derive(Debug, Clone)]
pub struct LeaderboardDisplayEntry {
    pub rank: usize,
    pub username: String,
    pub referral_count: i64,
    pub medal: Option<String>,
}

pub struct ReferralService;

pub open spec fn stars() -> Seq<char> {
    seq!['*', '*', '*']
}

/// How many leading bytes of a name of `len` bytes stay visible.
pub open spec fn visible_bytes(len: int) -> int {
    if len > 6 { 3 } else { 1 }
}

/// A name of at most three bytes is hidden whole; a longer one keeps its
/// first byte, or its first three when longer than six bytes. Where that cut
/// would fall inside a character the name is hidden whole.
pub open spec fn masked_spec(b: Seq<u8>) -> Seq<char> {
    if b.len() <= 3 || !is_char_boundary(b, visible_bytes(b.len() as int)) {
        stars()
    } else {
        decode_utf8(b.subrange(0, visible_bytes(b.len() as int))) + stars()
    }
}

/// The medal of the first three ranks.
pub open spec fn medal_spec(rank: int) -> Option<Seq<char>> {
    if rank == 1 {
        Some("🥇"@)
    } else if rank == 2 {
        Some("🥈"@)
    } else if rank == 3 {
        Some("🥉"@)
    } else {
        None
    }
}

/// The name shown for a row: its masked username, or a masked
/// `Anonymous`.
pub open spec fn shown_name(u: Option<String>) -> Seq<char> {
    match u {
        Some(s) => masked_spec(encode_utf8(s@)),
        None => masked_spec(encode_utf8("Anonymous"@)),
    }
}

pub open spec fn medal_view(m: Option<String>) -> Option<Seq<char>> {
    match m {
        Some(s) => Some(s@),
        None => None,
    }
}

/// Row `i` of the display shows row `i` of the ranking.
pub open spec fn displays(row: LeaderboardEntry, d: LeaderboardDisplayEntry, i: int) -> bool {
    &&& d.rank == i + 1
    &&& d.username@ == shown_name(row.username)
    &&& d.referral_count == row.referral_count
    &&& medal_view(d.medal) == medal_spec(i + 1)
}

fn medal(rank: usize) -> (r: Option<String>)
    ensures
        medal_view(r) == medal_spec(rank as int),
{
    if rank == 1 {
        Some(String::from_str("🥇"))
    } else if rank == 2 {
        Some(String::from_str("🥈"))
    } else if rank == 3 {
        Some(String::from_str("🥉"))
    } else {
        None
    }
}

impl ReferralService {
    /// Hides most of a username, measured in bytes.
    pub fn mask_username(username: &str) -> (r: String)
        ensures
            r@ == masked_spec(encode_utf8(username@)),
    {
        proof {
            reveal_strlit("***");
        }
        assert("***"@ =~= stars());
        assert(username.spec_bytes() == encode_utf8(username@));
        let len = username.as_bytes().len();
        if len <= 3 {
            return String::from_str("***");
        }
        let visible: usize = if len > 6 { 3 } else { 1 };
        if !username.is_char_boundary(visible) {
            return String::from_str("***");
        }
        let (head, _) = username.split_at(visible);
        proof {
            encode_utf8_decode_utf8(head@);
        }
        let mut s = String::from_str(head);
        s.append("***");
        s
    }

    /// The leaderboard lines for referrers ranked best first.
    pub fn display_rows(rows: &Vec<LeaderboardEntry>) -> (r: Vec<LeaderboardDisplayEntry>)
        ensures
            r@.len() == rows@.len(),
            forall|i: int| 0 <= i < rows@.len() ==> displays(rows@[i], #[trigger] r@[i], i),
    {
        let mut out: Vec<LeaderboardDisplayEntry> = Vec::new();
        let mut i: usize = 0;
        while i < rows.len()
            invariant
                i <= rows@.len(),
                out@.len() == i,
                forall|j: int| 0 <= j < i ==> displays(rows@[j], #[trigger] out@[j], j),
            decreases rows@.len() - i,
        {
            let row = &rows[i];
            let name = match &row.username {
                Some(u) => ReferralService::mask_username(u.as_str()),
                None => ReferralService::mask_username("Anonymous"),
            };
            out.push(
                LeaderboardDisplayEntry {
                    rank: i + 1,
                    username: name,
                    referral_count: row.referral_count,
                    medal: medal(i + 1),
                },
            );
            i = i + 1;
        }
        out
    }
}

} // verus!
