//! What follows a committed payment: notifications and revenue tracking,
//! performed after the ledger write and never able to undo it.

use vstd::prelude::*;
use crate::intent::PaymentType;
use crate::ledger::Receipt;
use crate::text::{digit_char, digit_str, nat_text, u64_text};

verus! {

/// A best-effort action to take once a payment is committed.
#[derive(Debug, Clone)]
pub enum PostCommit {
    Notify { user_id: i64, message: String },
    TrackRevenue { amount_minor: i64 },
}

pub enum PostCommitView {
    Notify(i64, Seq<char>),
    TrackRevenue(i64),
}

impl View for PostCommit {
    type V = PostCommitView;

    open spec fn view(&self) -> PostCommitView {
        match self {
            PostCommit::Notify { user_id, message } => PostCommitView::Notify(*user_id, message@),
            PostCommit::TrackRevenue { amount_minor } => PostCommitView::TrackRevenue(*amount_minor),
        }
    }
}

/// Dollars and cents of a non-negative amount in minor units: `25.00`.
pub open spec fn usd_text(m: nat) -> Seq<char> {
    nat_text(m / 100) + seq!['.', digit_char((m % 100) / 10), digit_char(m % 10)]
}

pub open spec fn bonus_message(b: nat) -> Seq<char> {
    "🎉 *Referral Bonus* from your invited user!\n+$"@ + usd_text(b)
}

pub open spec fn topup_message(m: nat) -> Seq<char> {
    "✅ Balance topped up: +$"@ + usd_text(m)
}

pub open spec fn order_message() -> Seq<char> {
    "✅ Your order has been paid successfully!"@
}

/// The actions after a committed payment: the referrer's notice of a bonus,
/// the payer's notice, then revenue tracking.
pub open spec fn post_commit_spec(r: Receipt) -> Seq<PostCommitView> {
    let track = PostCommitView::TrackRevenue(r.amount_minor);
    match r.kind {
        PaymentType::BalanceTopup => {
            let own = seq![
                PostCommitView::Notify(r.user_id, topup_message(r.amount_minor as nat)),
                track,
            ];
            match r.referral {
                Some((rid, b)) => seq![PostCommitView::Notify(rid, bonus_message(b as nat))] + own,
                None => own,
            }
        },
        PaymentType::OrderPurchase(_) => seq![
            PostCommitView::Notify(r.user_id, order_message()),
            track,
        ],
    }
}

/// Formats a non-negative amount in minor units as dollars and cents.
pub fn usd_string(m: i64) -> (r: String)
    requires
        m >= 0,
    ensures
        r@ == usd_text(m as nat),
{
    let u = m as u64;
    let mut s = u64_text(u / 100);
    proof {
        reveal_strlit(".");
    }
    s.append(".");
    s.append(digit_str((u % 100) / 10));
    s.append(digit_str(u % 10));
    assert(s@ =~= usd_text(m as nat));
    s
}

/// The actions that a committed receipt calls for.
pub fn post_commit_actions(r: &Receipt) -> (out: Vec<PostCommit>)
    requires
        r.amount_minor >= 0,
        r.referral matches Some((_, b)) ==> b >= 0,
    ensures
        out@.map_values(|a: PostCommit| a@) == post_commit_spec(*r),
{
    let mut out: Vec<PostCommit> = Vec::new();
    let track = PostCommit::TrackRevenue { amount_minor: r.amount_minor };
    match r.kind {
        PaymentType::BalanceTopup => {
            match r.referral {
                Some((rid, b)) => {
                    let mut msg = String::from_str("🎉 *Referral Bonus* from your invited user!\n+$");
                    let t = usd_string(b);
                    msg.append(t.as_str());
                    out.push(PostCommit::Notify { user_id: rid, message: msg });
                },
                None => {},
            }
            let mut msg = String::from_str("✅ Balance topped up: +$");
            let t = usd_string(r.amount_minor);
            msg.append(t.as_str());
            out.push(PostCommit::Notify { user_id: r.user_id, message: msg });
            out.push(track);
        },
        PaymentType::OrderPurchase(_) => {
            out.push(
                PostCommit::Notify {
                    user_id: r.user_id,
                    message: String::from_str("✅ Your order has been paid successfully!"),
                },
            );
            out.push(track);
        },
    }
    assert(out@.map_values(|a: PostCommit| a@) =~= post_commit_spec(*r));
    out
}

} // verus!
