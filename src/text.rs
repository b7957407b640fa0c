//! Decimal text of integers: rendering and strict parsing.

use vstd::prelude::*;

verus! {

/// The character of a decimal digit `d < 10`.
pub open spec fn digit_char(d: nat) -> char {
    if d == 0 { '0' }
    else if d == 1 { '1' }
    else if d == 2 { '2' }
    else if d == 3 { '3' }
    else if d == 4 { '4' }
    else if d == 5 { '5' }
    else if d == 6 { '6' }
    else if d == 7 { '7' }
    else if d == 8 { '8' }
    else { '9' }
}

/// The value of a decimal digit character, `None` for any other character.
pub open spec fn digit_value(c: char) -> Option<nat> {
    if c == '0' { Some(0) }
    else if c == '1' { Some(1) }
    else if c == '2' { Some(2) }
    else if c == '3' { Some(3) }
    else if c == '4' { Some(4) }
    else if c == '5' { Some(5) }
    else if c == '6' { Some(6) }
    else if c == '7' { Some(7) }
    else if c == '8' { Some(8) }
    else if c == '9' { Some(9) }
    else { None }
}

pub open spec fn is_digit(c: char) -> bool {
    digit_value(c) is Some
}

pub open spec fn all_digits(s: Seq<char>) -> bool {
    forall|i: int| 0 <= i < s.len() ==> #[trigger] is_digit(s[i])
}

/// The value of a run of decimal digits (most significant first).
pub open spec fn digits_value(s: Seq<char>) -> nat
    decreases s.len(),
{
    if s.len() == 0 {
        0
    } else {
        digits_value(s.drop_last()) * 10 + digit_value(s.last()).unwrap_or(0)
    }
}

/// The shortest decimal digits of `n`.
pub open spec fn nat_text(n: nat) -> Seq<char>
    decreases n,
{
    if n < 10 {
        seq![digit_char(n)]
    } else {
        nat_text(n / 10).push(digit_char(n % 10))
    }
}

/// The decimal text of `n`, with a leading `-` when negative.
pub open spec fn int_text(n: int) -> Seq<char> {
    if n < 0 {
        seq!['-'] + nat_text((-n) as nat)
    } else {
        nat_text(n as nat)
    }
}

pub open spec fn fits_i64(v: int) -> bool {
    i64::MIN <= v <= i64::MAX
}

/// Index of the first `c` in `s`, or -1 when there is none.
pub open spec fn char_index(s: Seq<char>, c: char) -> int
    decreases s.len(),
{
    if s.len() == 0 {
        -1
    } else if s[0] == c {
        0
    } else {
        let r = char_index(s.drop_first(), c);
        if r < 0 { -1 } else { r + 1 }
    }
}

/// `char_index` finds the first occurrence, and -1 means none.
pub proof fn lemma_char_index(t: Seq<char>, c: char)
    ensures
        -1 <= char_index(t, c) < t.len(),
        char_index(t, c) >= 0 ==> t[char_index(t, c)] == c,
        forall|j: int| 0 <= j < char_index(t, c) ==> t[j] != c,
        char_index(t, c) < 0 ==> forall|j: int| 0 <= j < t.len() ==> t[j] != c,
    decreases t.len(),
{
    if t.len() > 0 && t[0] != c {
        lemma_char_index(t.drop_first(), c);
        assert forall|j: int| 0 < j < t.len() implies t[j] == t.drop_first()[j - 1] by {}
    }
}

/// Strict signed 64-bit integer syntax: an optional `+` or `-`, then one or
/// more decimal digits, with a value in range.
pub open spec fn parse_i64_spec(s: Seq<char>) -> Option<i64> {
    if s.len() > 0 && (s[0] == '-' || s[0] == '+') {
        let body = s.drop_first();
        let v: int = if s[0] == '-' { -digits_value(body) } else { digits_value(body) as int };
        if body.len() > 0 && all_digits(body) && fits_i64(v) {
            Some(v as i64)
        } else {
            None
        }
    } else if s.len() > 0 && all_digits(s) && fits_i64(digits_value(s) as int) {
        Some(digits_value(s) as i64)
    } else {
        None
    }
}

pub proof fn lemma_nat_text(n: nat)
    ensures
        nat_text(n).len() > 0,
        all_digits(nat_text(n)),
        digits_value(nat_text(n)) == n,
    decreases n,
{
    let t = nat_text(n);
    if n < 10 {
        assert(t.drop_last() =~= Seq::<char>::empty());
        assert(digits_value(Seq::<char>::empty()) == 0);
    } else {
        lemma_nat_text(n / 10);
        assert(t.drop_last() =~= nat_text(n / 10));
        assert(n == (n / 10) * 10 + n % 10);
        assert(t.last() == digit_char(n % 10));
        assert forall|i: int| 0 <= i < t.len() implies #[trigger] is_digit(t[i]) by {
            if i < t.len() - 1 {
                assert(is_digit(nat_text(n / 10)[i]));
            }
        }
    }
}

/// Every integer of 64 bits reads back from its decimal text.
pub proof fn lemma_int_text_parses(n: i64)
    ensures
        parse_i64_spec(int_text(n as int)) == Some(n),
        !int_text(n as int).contains(':'),
{
    let t = int_text(n as int);
    if n < 0 {
        lemma_nat_text((-n) as nat);
        assert(t.drop_first() =~= nat_text((-n) as nat));
        assert(!is_digit('-'));
        assert(t[0] == '-');
    } else {
        lemma_nat_text(n as nat);
        assert(is_digit(t[0]));
    }
    assert(!is_digit(':'));
    if t.contains(':') {
        let i = choose|i: int| 0 <= i < t.len() && t[i] == ':';
        if n < 0 {
            if i > 0 {
                assert(t[i] == t.drop_first()[i - 1]);
                assert(is_digit(t.drop_first()[i - 1]));
            }
        } else {
            assert(is_digit(t[i]));
        }
    }
}

pub proof fn lemma_digits_value_prefix(s: Seq<char>, k: int)
    requires
        0 <= k <= s.len(),
    ensures
        digits_value(s) >= digits_value(s.subrange(0, k)),
    decreases s.len() - k,
{
    if k == s.len() {
        assert(s.subrange(0, k) =~= s);
    } else {
        lemma_digits_value_prefix(s, k + 1);
        let p = s.subrange(0, k + 1);
        assert(p.drop_last() =~= s.subrange(0, k));
        assert(digits_value(p) >= digits_value(s.subrange(0, k))) by (nonlinear_arith)
            requires digits_value(p) == digits_value(p.drop_last()) * 10 + digit_value(p.last()).unwrap_or(0),
                p.drop_last() == s.subrange(0, k);
    }
}

/// Finds the first `c` of `s` at or after `from`.
pub fn find_char(s: &str, from: usize, c: char) -> (r: Option<usize>)
    requires
        from <= s@.len(),
    ensures
        r is None ==> char_index(s@.subrange(from as int, s@.len() as int), c) < 0,
        r matches Some(k) ==> from <= k < s@.len() && char_index(
            s@.subrange(from as int, s@.len() as int),
            c,
        ) == k - from,
{
    let len = s.unicode_len();
    let ghost t = s@.subrange(from as int, len as int);
    let mut i: usize = from;
    while i < len
        invariant
            from <= i <= len,
            len == s@.len(),
            t == s@.subrange(from as int, len as int),
            forall|j: int| 0 <= j < i - from ==> t[j] != c,
        decreases len - i,
    {
        if s.get_char(i) == c {
            proof {
                lemma_char_index(t, c);
                assert(t[i - from] == c);
            }
            return Some(i);
        }
        i = i + 1;
    }
    proof {
        lemma_char_index(t, c);
        if char_index(t, c) >= 0 {
            assert(t[char_index(t, c)] == c);
        }
    }
    None
}

/// Whether `s` is exactly the characters of `tag`.
pub fn text_is(s: &str, tag: &str) -> (r: bool)
    ensures
        r == (s@ == tag@),
{
    let n = s.unicode_len();
    if n != tag.unicode_len() {
        return false;
    }
    let mut i: usize = 0;
    while i < n
        invariant
            i <= n,
            n == s@.len(),
            n == tag@.len(),
            forall|j: int| 0 <= j < i ==> s@[j] == tag@[j],
        decreases n - i,
    {
        if s.get_char(i) != tag.get_char(i) {
            return false;
        }
        i = i + 1;
    }
    assert(s@ =~= tag@);
    true
}

/// The value of one character as a decimal digit.
pub fn digit_of(c: char) -> (r: Option<u64>)
    ensures
        r matches Some(d) ==> digit_value(c) == Some(d as nat),
        r is None ==> digit_value(c) is None,
{
    match c {
        '0' => Some(0),
        '1' => Some(1),
        '2' => Some(2),
        '3' => Some(3),
        '4' => Some(4),
        '5' => Some(5),
        '6' => Some(6),
        '7' => Some(7),
        '8' => Some(8),
        '9' => Some(9),
        _ => None,
    }
}

pub(crate) fn digit_str(d: u64) -> (r: &'static str)
    requires
        d < 10,
    ensures
        r@ == seq![digit_char(d as nat)],
{
    let digits = "0123456789";
    proof {
        reveal_strlit("0123456789");
    }
    let r = digits.substring_char(d as usize, d as usize + 1);
    assert(r@ =~= seq![digit_char(d as nat)]);
    r
}

/// The shortest decimal digits of `n`.
pub fn u64_text(n: u64) -> (r: String)
    ensures
        r@ == nat_text(n as nat),
    decreases n,
{
    if n < 10 {
        String::from_str(digit_str(n))
    } else {
        let mut s = u64_text(n / 10);
        s.append(digit_str(n % 10));
        s
    }
}

/// The decimal text of `n`, as `{}` formats it.
pub fn i64_text(n: i64) -> (r: String)
    ensures
        r@ == int_text(n as int),
{
    if n < 0 {
        let m: u64 = (-(n as i128)) as u64;
        let mut s = String::from_str("-");
        proof {
            reveal_strlit("-");
        }
        let t = u64_text(m);
        s.append(t.as_str());
        s
    } else {
        u64_text(n as u64)
    }
}

/// Parses a signed 64-bit integer as `str::parse::<i64>` does: an optional
/// sign, then at least one decimal digit, with a value in range.
pub fn parse_i64(s: &str) -> (r: Option<i64>)
    ensures
        r == parse_i64_spec(s@),
{
    let len = s.unicode_len();
    if len == 0 {
        return None;
    }
    let c0 = s.get_char(0);
    let negative = c0 == '-';
    let start: usize = if c0 == '-' || c0 == '+' { 1 } else { 0 };
    if start == len {
        return None;
    }
    let ghost body = s@.subrange(start as int, len as int);
    let mut acc: u64 = 0;
    let mut i: usize = start;
    while i < len
        invariant
            start <= i <= len,
            start <= 1,
            len == s@.len(),
            len > 0,
            start == 1 <==> (s@[0] == '-' || s@[0] == '+'),
            negative <==> s@[0] == '-',
            body == s@.subrange(start as int, len as int),
            all_digits(s@.subrange(start as int, i as int)),
            acc as nat == digits_value(s@.subrange(start as int, i as int)),
            acc <= 0x8000_0000_0000_0000u64,
        decreases len - i,
    {
        let c = s.get_char(i);
        let d = match digit_of(c) {
            Some(d) => d,
            None => {
                proof {
                    assert(body[i - start] == c);
                    assert(!is_digit(body[i - start]));
                    assert(!all_digits(body));
                    if start == 0 {
                        assert(body =~= s@);
                    } else {
                        assert(body =~= s@.drop_first());
                    }
                }
                return None;
            },
        };
        let ghost prev = s@.subrange(start as int, i as int);
        let ghost next = s@.subrange(start as int, i + 1);
        proof {
            assert(next.drop_last() =~= prev);
            assert(all_digits(next));
        }
        if acc > (0x8000_0000_0000_0000u64 - d) / 10 {
            proof {
                assert(digits_value(next) > 0x8000_0000_0000_0000) by (nonlinear_arith)
                    requires digits_value(next) == acc * 10 + d, acc > (0x8000_0000_0000_0000u64 - d) / 10, d < 10;
                assert(body.subrange(0, (i + 1 - start) as int) =~= next);
                lemma_digits_value_prefix(body, (i + 1 - start) as int);
                if start == 0 {
                    assert(body =~= s@);
                } else {
                    assert(body =~= s@.drop_first());
                }
            }
            return None;
        }
        acc = acc * 10 + d;
        i = i + 1;
    }
    proof {
        if start == 0 {
            assert(body =~= s@);
        } else {
            assert(body =~= s@.drop_first());
        }
    }
    if negative {
        Some((-(acc as i128)) as i64)
    } else if acc <= 0x7fff_ffff_ffff_ffffu64 {
        Some(acc as i64)
    } else {
        None
    }
}

} // verus!
