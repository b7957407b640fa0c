//! Decimal amounts as providers state them, and their conversion to integer
//! minor units (cents).

use vstd::prelude::*;
use crate::text::{
    all_digits, char_index, digit_of, digits_value, find_char, is_digit,
    lemma_char_index, lemma_digits_value_prefix,
};

verus! {

/// The largest number of fraction digits an amount may carry.
pub const MAX_SCALE: u32 = 18;

/// The decimal number `units / 10^scale`.
#[derive(Debug, Clone, Copy, PartialEq, Eq, Structural)]
pub struct Amount {
    pub units: u64,
    pub scale: u32,
}

pub open spec fn pow10(n: nat) -> nat
    decreases n,
{
    if n == 0 { 1 } else { 10 * pow10((n - 1) as nat) }
}

impl Amount {
    pub open spec fn wf(self) -> bool {
        self.scale <= MAX_SCALE
    }
}

/// Minor units of an amount, rounded half up to the cent.
pub open spec fn minor_units_spec(a: Amount) -> int {
    if a.scale <= 2 {
        a.units * pow10((2 - a.scale) as nat)
    } else {
        let d = pow10((a.scale - 2) as nat);
        a.units as int / d as int + if (a.units as int % d as int) * 2 >= d { 1int } else { 0int }
    }
}

/// The digits before the first `.`, or all of `s`.
pub open spec fn whole_part(s: Seq<char>) -> Seq<char> {
    if char_index(s, '.') < 0 { s } else { s.subrange(0, char_index(s, '.')) }
}

/// The digits after the first `.`, or none.
pub open spec fn fraction_part(s: Seq<char>) -> Seq<char> {
    if char_index(s, '.') < 0 {
        Seq::empty()
    } else {
        s.subrange(char_index(s, '.') + 1, s.len() as int)
    }
}

/// Plain decimal syntax: one or more digits, then optionally `.` and one or
/// more digits; at most `MAX_SCALE` fraction digits and all digits together
/// within `u64`.
pub open spec fn parse_decimal_spec(s: Seq<char>) -> Option<Amount> {
    let w = whole_part(s);
    let f = fraction_part(s);
    if w.len() > 0 && all_digits(w) && all_digits(f) && (char_index(s, '.') >= 0 ==> f.len() > 0)
        && f.len() <= MAX_SCALE && digits_value(w + f) <= u64::MAX {
        Some(Amount { units: digits_value(w + f) as u64, scale: f.len() as u32 })
    } else {
        None
    }
}

proof fn lemma_pow10_pos(n: nat)
    ensures
        pow10(n) >= 1,
    decreases n,
{
    if n > 0 {
        lemma_pow10_pos((n - 1) as nat);
    }
}

proof fn lemma_pow10_mono(a: nat, b: nat)
    requires
        a <= b,
    ensures
        1 <= pow10(a) <= pow10(b),
    decreases b,
{
    lemma_pow10_pos(a);
    if b > a {
        lemma_pow10_mono(a, (b - 1) as nat);
    }
}

pub proof fn lemma_minor_units_nonneg(a: Amount)
    ensures
        minor_units_spec(a) >= 0,
{
    if a.scale <= 2 {
        lemma_pow10_pos((2 - a.scale) as nat);
        assert(a.units * pow10((2 - a.scale) as nat) >= 0) by (nonlinear_arith);
    } else {
        lemma_pow10_pos((a.scale - 2) as nat);
        let d = pow10((a.scale - 2) as nat);
        assert(a.units as int / d as int >= 0) by (nonlinear_arith)
            requires d >= 1;
    }
}

/// `10^n` for `n <= MAX_SCALE`.
fn pow10_u64(n: u32) -> (r: u64)
    requires
        n <= MAX_SCALE,
    ensures
        r as nat == pow10(n as nat),
{
    proof {
        reveal_with_fuel(pow10, 19);
        lemma_pow10_mono(n as nat, 18);
    }
    let mut p: u64 = 1;
    let mut i: u32 = 0;
    while i < n
        invariant
            i <= n <= 18,
            p as nat == pow10(i as nat),
            pow10(n as nat) <= 1_000_000_000_000_000_000,
        decreases n - i,
    {
        proof {
            lemma_pow10_mono((i + 1) as nat, n as nat);
        }
        p = p * 10;
        i = i + 1;
    }
    p
}

/// Parses plain decimal text such as `25.00` or `7`.
pub fn parse_decimal(s: &str) -> (r: Option<Amount>)
    ensures
        r == parse_decimal_spec(s@),
        r matches Some(a) ==> a.wf(),
{
    let len = s.unicode_len();
    let dot = find_char(s, 0, '.');
    proof {
        assert(s@.subrange(0, len as int) =~= s@);
        lemma_char_index(s@, '.');
    }
    let k: usize = match dot {
        Some(k) => k,
        None => len,
    };
    let ghost w = whole_part(s@);
    let ghost f = fraction_part(s@);
    assert(w =~= s@.subrange(0, k as int));
    assert(f =~= if k < len { s@.subrange(k + 1, len as int) } else { Seq::<char>::empty() });
    if k == 0 || (k < len && k + 1 == len) || len - k > 1 + MAX_SCALE as usize {
        return None;
    }
    let ghost all = w + f;
    let ghost mut ds: Seq<char> = Seq::empty();
    let mut acc: u64 = 0;
    let mut i: usize = 0;
    while i < len
        invariant
            0 < k <= len,
            len == s@.len(),
            w == s@.subrange(0, k as int),
            f == if k < len { s@.subrange(k + 1, len as int) } else { Seq::<char>::empty() },
            all == w + f,
            w == whole_part(s@),
            f == fraction_part(s@),
            i <= len,
            ds == all.subrange(0, if i <= k { i as int } else { i - 1 }),
            all_digits(ds),
            acc as nat == digits_value(ds),
        decreases len - i,
    {
        if i != k {
            let c = s.get_char(i);
            let d = match digit_of(c) {
                Some(d) => d,
                None => {
                    proof {
                        assert(!is_digit(c));
                        if i < k {
                            assert(w[i as int] == c);
                            assert(!all_digits(w));
                        } else {
                            assert(f[i - k - 1] == c);
                            assert(!all_digits(f));
                        }
                    }
                    return None;
                },
            };
            let ghost next = ds.push(c);
            proof {
                if i < k {
                    assert(all[i as int] == c);
                } else {
                    assert(all[i - 1] == c);
                }
                assert(next =~= all.subrange(0, if i < k { i + 1 } else { i as int }));
                assert(next.drop_last() =~= ds);
                assert(all_digits(next));
            }
            if acc > (u64::MAX - d) / 10 {
                proof {
                    assert(digits_value(next) > u64::MAX) by (nonlinear_arith)
                        requires digits_value(next) == acc * 10 + d, acc > (u64::MAX - d) / 10, d < 10;
                    lemma_digits_value_prefix(all, next.len() as int);
                }
                return None;
            }
            acc = acc * 10 + d;
            proof {
                ds = next;
            }
        } else {
            proof {
                assert(ds =~= all.subrange(0, i as int));
            }
        }
        i = i + 1;
    }
    assert(ds =~= all);
    assert(all_digits(w)) by {
        assert forall|j: int| 0 <= j < w.len() implies #[trigger] is_digit(w[j]) by {
            assert(w[j] == all[j]);
        }
    }
    assert(all_digits(f)) by {
        assert forall|j: int| 0 <= j < f.len() implies #[trigger] is_digit(f[j]) by {
            assert(f[j] == all[w.len() + j]);
        }
    }
    Some(Amount { units: acc, scale: (len - k - if k < len { 1usize } else { 0usize }) as u32 })
}

/// The amount in minor units, rounded half up; `None` where that exceeds
/// `i64`.
pub fn to_minor_units(a: &Amount) -> (r: Option<i64>)
    requires
        a.wf(),
    ensures
        r matches Some(m) ==> m as int == minor_units_spec(*a),
        r is None <==> minor_units_spec(*a) > i64::MAX,
{
    if a.scale <= 2 {
        let mult = pow10_u64(2 - a.scale);
        proof {
            lemma_pow10_mono((2 - a.scale) as nat, 2);
            reveal_with_fuel(pow10, 3);
        }
        assert(a.units as u128 * mult as u128 <= u64::MAX as u128 * 100) by (nonlinear_arith)
            requires mult <= 100;
        let v: u128 = a.units as u128 * mult as u128;
        if v > i64::MAX as u128 {
            None
        } else {
            Some(v as i64)
        }
    } else {
        let d = pow10_u64(a.scale - 2);
        proof {
            lemma_pow10_mono(0, (a.scale - 2) as nat);
        }
        let q = a.units / d;
        let rem = a.units % d;
        let up: u64 = if rem as u128 * 2 >= d as u128 { 1 } else { 0 };
        let v: u128 = q as u128 + up as u128;
        if v > i64::MAX as u128 {
            None
        } else {
            Some(v as i64)
        }
    }
}

} // verus!
