//! The payment intent: what a payment is for, carried as text through a
//! provider and read back from its callback.

use vstd::prelude::*;
use crate::text::{
    char_index, find_char, i64_text, text_is, int_text, lemma_char_index, lemma_int_text_parses, parse_i64,
    parse_i64_spec,
};

verus! {

/// What the money of a payment is for.
#[derive(Debug, Clone, Copy, PartialEq, Eq, Structural)]
pub enum PaymentType {
    BalanceTopup,
    /// Purchase of the order with this id.
    OrderPurchase(i64),
}

/// Who pays, and for what.
#[derive(Debug, Clone, Copy, PartialEq, Eq, Structural)]
pub struct PaymentIntent {
    pub user_id: i64,
    pub kind: PaymentType,
}

#[derive(Debug, Clone, Copy, PartialEq, Eq, Structural)]
pub enum DecodeError {
    Invalid,
}

impl PaymentIntent {
    /// A positive user, and a positive order for a purchase.
    pub open spec fn valid(self) -> bool {
        &&& self.user_id > 0
        &&& (self.kind matches PaymentType::OrderPurchase(o) ==> o > 0)
    }
}

pub open spec fn tag_bal() -> Seq<char> {
    seq!['b', 'a', 'l']
}

pub open spec fn tag_ord() -> Seq<char> {
    seq!['o', 'r', 'd']
}

/// The text of an intent: `user:bal:0` or `user:ord:order`.
pub open spec fn payload_text(kind: PaymentType, user_id: i64) -> Seq<char> {
    match kind {
        PaymentType::BalanceTopup => int_text(user_id as int) + seq![':'] + tag_bal() + seq![':', '0'],
        PaymentType::OrderPurchase(o) => int_text(user_id as int) + seq![':'] + tag_ord() + seq![':']
            + int_text(o as int),
    }
}

pub open spec fn encode_spec(intent: PaymentIntent) -> Seq<char> {
    payload_text(intent.kind, intent.user_id)
}

/// Index of the first `:` in `s`, or -1 when there is none.
pub open spec fn colon_index(s: Seq<char>) -> int {
    char_index(s, ':')
}

/// The text before the first `:`, or all of it.
pub open spec fn before_colon(s: Seq<char>) -> Seq<char> {
    if colon_index(s) < 0 { s } else { s.subrange(0, colon_index(s)) }
}

/// The text after the first `:`.
pub open spec fn after_colon(s: Seq<char>) -> Seq<char> {
    s.subrange(colon_index(s) + 1, s.len() as int)
}

/// A number field: its value, or 0 where it does not parse.
pub open spec fn int_or_zero(s: Seq<char>) -> i64 {
    match parse_i64_spec(s) {
        Some(v) => v,
        None => 0,
    }
}

/// Decoding: the structured form takes the first three `:`-separated fields
/// (`user`, tag, target) and ignores any further ones; text without any `:`
/// is a bare user id for a topup. Anything that yields no positive user, an
/// unknown tag, or a purchase of no positive order is invalid.
pub open spec fn decode_spec(s: Seq<char>) -> Result<PaymentIntent, DecodeError> {
    if colon_index(s) < 0 {
        match parse_i64_spec(s) {
            Some(u) => if u > 0 {
                Ok(PaymentIntent { user_id: u, kind: PaymentType::BalanceTopup })
            } else {
                Err(DecodeError::Invalid)
            },
            None => Err(DecodeError::Invalid),
        }
    } else if colon_index(after_colon(s)) < 0 {
        Err(DecodeError::Invalid)
    } else {
        let user = int_or_zero(before_colon(s));
        let rest = after_colon(s);
        let tag = before_colon(rest);
        let target = int_or_zero(before_colon(after_colon(rest)));
        if user <= 0 {
            Err(DecodeError::Invalid)
        } else if tag == tag_bal() {
            Ok(PaymentIntent { user_id: user, kind: PaymentType::BalanceTopup })
        } else if tag == tag_ord() && target > 0 {
            Ok(PaymentIntent { user_id: user, kind: PaymentType::OrderPurchase(target) })
        } else {
            Err(DecodeError::Invalid)
        }
    }
}

pub proof fn lemma_colon_index(t: Seq<char>)
    ensures
        -1 <= colon_index(t) < t.len(),
        colon_index(t) >= 0 ==> t[colon_index(t)] == ':',
        forall|j: int| 0 <= j < colon_index(t) ==> t[j] != ':',
        colon_index(t) < 0 ==> forall|j: int| 0 <= j < t.len() ==> t[j] != ':',
{
    lemma_char_index(t, ':');
}

/// The first `:` of `t` stands at `k`.
pub proof fn lemma_colon_at(t: Seq<char>, k: int)
    requires
        0 <= k < t.len(),
        t[k] == ':',
        forall|j: int| 0 <= j < k ==> t[j] != ':',
    ensures
        colon_index(t) == k,
{
    lemma_char_index(t, ':');
}

proof fn lemma_colon_after(a: Seq<char>, b: Seq<char>)
    requires
        !a.contains(':'),
    ensures
        colon_index(a + seq![':'] + b) == a.len(),
        before_colon(a + seq![':'] + b) == a,
        after_colon(a + seq![':'] + b) == b,
{
    let t = a + seq![':'] + b;
    assert forall|j: int| 0 <= j < a.len() implies t[j] != ':' by {
        assert(t[j] == a[j]);
    }
    lemma_colon_at(t, a.len() as int);
    assert(t.subrange(0, a.len() as int) =~= a);
    assert(t.subrange(a.len() as int + 1, t.len() as int) =~= b);
}

proof fn lemma_no_colon(a: Seq<char>)
    requires
        !a.contains(':'),
    ensures
        colon_index(a) < 0,
        before_colon(a) == a,
{
    lemma_colon_index(a);
    if colon_index(a) >= 0 {
        assert(a[colon_index(a)] == ':');
    }
}

/// Every valid intent reads back from its encoding unchanged.
pub proof fn lemma_decode_encode(intent: PaymentIntent)
    requires
        intent.valid(),
    ensures
        decode_spec(encode_spec(intent)) == Ok::<PaymentIntent, DecodeError>(intent),
{
    let u = int_text(intent.user_id as int);
    lemma_int_text_parses(intent.user_id);
    reveal_with_fuel(crate::text::nat_text, 2);
    let zero = seq!['0'];
    assert(crate::text::nat_text(0) == zero);
    lemma_int_text_parses(0);
    let target = match intent.kind {
        PaymentType::BalanceTopup => zero,
        PaymentType::OrderPurchase(o) => int_text(o as int),
    };
    let tag = match intent.kind {
        PaymentType::BalanceTopup => tag_bal(),
        PaymentType::OrderPurchase(_) => tag_ord(),
    };
    if let PaymentType::OrderPurchase(o) = intent.kind {
        lemma_int_text_parses(o);
    }
    assert(!tag.contains(':')) by {
        if tag.contains(':') {
            let i = choose|i: int| 0 <= i < tag.len() && tag[i] == ':';
        }
    }
    let s = encode_spec(intent);
    let rest = tag + seq![':'] + target;
    assert(s =~= u + seq![':'] + rest);
    lemma_colon_after(u, rest);
    lemma_colon_after(tag, target);
    lemma_no_colon(target);
}

/// Finds the first `:` of `s` at or after `from`.
fn find_colon(s: &str, from: usize) -> (r: Option<usize>)
    requires
        from <= s@.len(),
    ensures
        r is None ==> colon_index(s@.subrange(from as int, s@.len() as int)) < 0,
        r matches Some(k) ==> from <= k < s@.len() && colon_index(
            s@.subrange(from as int, s@.len() as int),
        ) == k - from,
{
    find_char(s, from, ':')
}

fn int_or_zero_of(s: &str) -> (r: i64)
    ensures
        r == int_or_zero(s@),
{
    match parse_i64(s) {
        Some(v) => v,
        None => 0,
    }
}

impl PaymentType {
    /// The intent text of this payment for `user_id`.
    pub fn to_payload_string(&self, user_id: i64) -> (r: String)
        ensures
            r@ == payload_text(*self, user_id),
    {
        let mut s = i64_text(user_id);
        match self {
            PaymentType::BalanceTopup => {
                proof {
                    reveal_strlit(":bal:0");
                }
                s.append(":bal:0");
                assert(s@ =~= payload_text(*self, user_id));
            },
            PaymentType::OrderPurchase(order_id) => {
                proof {
                    reveal_strlit(":ord:");
                }
                s.append(":ord:");
                let t = i64_text(*order_id);
                s.append(t.as_str());
                assert(s@ =~= payload_text(*self, user_id));
            },
        }
        s
    }
}

/// The text that carries `intent` through a provider.
pub fn encode(intent: &PaymentIntent) -> (r: String)
    ensures
        r@ == encode_spec(*intent),
{
    intent.kind.to_payload_string(intent.user_id)
}

/// Reads an intent back from its text.
pub fn decode(s: &str) -> (r: Result<PaymentIntent, DecodeError>)
    ensures
        r == decode_spec(s@),
        r matches Ok(i) ==> i.valid(),
{
    let len = s.unicode_len();
    let i1 = match find_colon(s, 0) {
        None => {
            assert(s@.subrange(0, len as int) =~= s@);
            return match parse_i64(s) {
                Some(u) => if u > 0 {
                    Ok(PaymentIntent { user_id: u, kind: PaymentType::BalanceTopup })
                } else {
                    Err(DecodeError::Invalid)
                },
                None => Err(DecodeError::Invalid),
            };
        },
        Some(k) => k,
    };
    assert(s@.subrange(0, len as int) =~= s@);
    let ghost rest = after_colon(s@);
    let i2 = match find_colon(s, i1 + 1) {
        None => {
            return Err(DecodeError::Invalid);
        },
        Some(k) => k,
    };
    let ghost rest2 = after_colon(rest);
    assert(rest.subrange(0, i2 - i1 - 1) =~= s@.subrange(i1 + 1, i2 as int));
    assert(rest2 =~= s@.subrange(i2 + 1, len as int));
    let end = match find_colon(s, i2 + 1) {
        None => len,
        Some(k) => k,
    };
    assert(before_colon(rest2) =~= s@.subrange(i2 + 1, end as int));
    let user = int_or_zero_of(s.substring_char(0, i1));
    let tag = s.substring_char(i1 + 1, i2);
    let target = int_or_zero_of(s.substring_char(i2 + 1, end));
    proof {
        reveal_strlit("bal");
        reveal_strlit("ord");
        assert("bal"@ =~= tag_bal());
        assert("ord"@ =~= tag_ord());
        assert(before_colon(s@) == s@.subrange(0, i1 as int));
        assert(before_colon(rest) == tag@);
    }
    if user <= 0 {
        Err(DecodeError::Invalid)
    } else if text_is(tag, "bal") {
        Ok(PaymentIntent { user_id: user, kind: PaymentType::BalanceTopup })
    } else if text_is(tag, "ord") && target > 0 {
        Ok(PaymentIntent { user_id: user, kind: PaymentType::OrderPurchase(target) })
    } else {
        Err(DecodeError::Invalid)
    }
}

} // verus!
