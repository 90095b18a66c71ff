//! Decimal numerals: what a text means as an integer, and how an integer is
//! written.
//!
//! A numeral is an optional sign followed by one or more of the digits `0` to
//! `9`; leading zeros are allowed. An unsigned numeral takes no `-`.

use vstd::prelude::*;
use crate::text::chars_of;

verus! {

/// `c` is one of `0` to `9`.
pub open spec fn is_digit(c: char) -> bool {
    48 <= c as u32 <= 57
}

/// The number that the digit `c` stands for.
pub open spec fn digit_value(c: char) -> int {
    c as u32 - 48
}

/// The digit that stands for `d`, for `d` below ten.
pub open spec fn digit_char(d: int) -> char {
    (d + 48) as char
}

/// Every character of `s` is a digit.
pub open spec fn all_digits(s: Seq<char>) -> bool {
    forall|i: int| 0 <= i < s.len() ==> is_digit(#[trigger] s[i])
}

/// The number that the digits of `s` write, most significant first.
pub open spec fn digits_value(s: Seq<char>) -> int
    decreases s.len(),
{
    if s.len() == 0 {
        0
    } else {
        digits_value(s.drop_last()) * 10 + digit_value(s.last())
    }
}

/// The numeral `s` without a leading sign, and whether that sign was `-`.
pub open spec fn split_sign(s: Seq<char>) -> (bool, Seq<char>) {
    if s.len() > 0 && s[0] == '-' {
        (true, s.skip(1))
    } else if s.len() > 0 && s[0] == '+' {
        (false, s.skip(1))
    } else {
        (false, s)
    }
}

/// The integer that `s` writes, where `s` is a signed numeral.
pub open spec fn parse_int(s: Seq<char>) -> Option<int> {
    let (negative, body) = split_sign(s);
    if body.len() == 0 || !all_digits(body) {
        None
    } else if negative {
        Some(-digits_value(body))
    } else {
        Some(digits_value(body))
    }
}

/// The `i64` that `s` writes: `None` where `s` is no signed numeral or its
/// value does not fit.
pub open spec fn parse_i64_spec(s: Seq<char>) -> Option<i64> {
    match parse_int(s) {
        Some(v) => if i64::MIN <= v <= i64::MAX {
            Some(v as i64)
        } else {
            None
        },
        None => None,
    }
}

/// The `u32` that `s` writes: `None` where `s` is no unsigned numeral (a
/// leading `+` is allowed, a `-` is not) or its value does not fit.
pub open spec fn parse_u32_spec(s: Seq<char>) -> Option<u32> {
    let body = if s.len() > 0 && s[0] == '+' {
        s.skip(1)
    } else {
        s
    };
    if body.len() == 0 || !all_digits(body) || digits_value(body) > u32::MAX {
        None
    } else {
        Some(digits_value(body) as u32)
    }
}

/// The digits of `n`, without leading zeros.
pub open spec fn nat_text(n: nat) -> Seq<char>
    decreases n,
{
    if n < 10 {
        seq![digit_char(n as int)]
    } else {
        nat_text(n / 10).push(digit_char((n % 10) as int))
    }
}

/// The numeral of `v`: its digits, after a `-` where `v` is negative.
pub open spec fn int_text(v: int) -> Seq<char> {
    if v < 0 {
        seq!['-'] + nat_text((-v) as nat)
    } else {
        nat_text(v as nat)
    }
}

/// The digits of a number are digits, there is at least one, and they write
/// that number.
pub proof fn lemma_nat_text(n: nat)
    ensures
        nat_text(n).len() >= 1,
        all_digits(nat_text(n)),
        digits_value(nat_text(n)) == n,
    decreases n,
{
    if n < 10 {
        let s = nat_text(n);
        assert(s.drop_last() =~= Seq::<char>::empty());
        assert(digits_value(s.drop_last()) == 0);
        assert(s.last() == digit_char(n as int));
    } else {
        lemma_nat_text(n / 10);
        let p = nat_text(n / 10);
        let s = nat_text(n);
        assert(s.drop_last() =~= p);
        assert(s.last() == digit_char((n % 10) as int));
        assert forall|i: int| 0 <= i < s.len() implies is_digit(#[trigger] s[i]) by {
            if i < p.len() {
                assert(s[i] == p[i]);
            }
        }
    }
}

/// Reading a written integer gives that integer back.
pub proof fn lemma_parse_int_text(v: int)
    ensures
        parse_int(int_text(v)) == Some(v),
{
    if v < 0 {
        let n = (-v) as nat;
        lemma_nat_text(n);
        let s = int_text(v);
        assert(s[0] == '-');
        assert(s.skip(1) =~= nat_text(n));
    } else {
        let n = v as nat;
        lemma_nat_text(n);
        let s = int_text(v);
        assert(is_digit(s[0]));
    }
}

/// Reading a written `i64` gives that `i64` back.
pub proof fn lemma_parse_i64_text(v: i64)
    ensures
        parse_i64_spec(int_text(v as int)) == Some(v),
{
    lemma_parse_int_text(v as int);
}

/// A longer run of digits writes no smaller number than its beginning.
pub proof fn lemma_digits_value_prefix(s: Seq<char>, k: int)
    requires
        all_digits(s),
        0 <= k <= s.len(),
    ensures
        0 <= digits_value(s.take(k)) <= digits_value(s),
    decreases s.len() - k,
{
    if k == s.len() {
        assert(s.take(k) =~= s);
        lemma_digits_value_nonnegative(s);
    } else {
        let t = s.drop_last();
        assert(t.take(k) =~= s.take(k));
        lemma_digits_value_prefix(t, k);
        assert(is_digit(s.last()));
    }
}

/// A run of digits writes no negative number.
pub proof fn lemma_digits_value_nonnegative(s: Seq<char>)
    requires
        all_digits(s),
    ensures
        0 <= digits_value(s),
    decreases s.len(),
{
    if s.len() > 0 {
        lemma_digits_value_nonnegative(s.drop_last());
        assert(is_digit(s.last()));
    }
}

/// The value of the digits `v[start..end]`, where there is at least one, all
/// are digits and the value is at most `limit`.
fn parse_digits(v: &Vec<char>, start: usize, end: usize, limit: u64) -> (r: Option<u64>)
    requires
        start <= end <= v.len(),
    ensures
        r == ({
            let body = v@.subrange(start as int, end as int);
            if body.len() == 0 || !all_digits(body) || digits_value(body) > limit {
                None
            } else {
                Some(digits_value(body) as u64)
            }
        }),
{
    let ghost body = v@.subrange(start as int, end as int);
    if start == end {
        return None;
    }
    let mut acc: u128 = 0;
    let mut i: usize = start;
    while i < end
        invariant
            start <= i <= end <= v.len(),
            body == v@.subrange(start as int, end as int),
            all_digits(body.take(i - start)),
            acc == digits_value(body.take(i - start)),
            acc <= limit,
        decreases end - i,
    {
        let c: u32 = v[i] as u32;
        if c < 48 || c > 57 {
            assert(!is_digit(body[i - start]));
            return None;
        }
        let ghost next = body.take(i - start + 1);
        proof {
            assert(next.drop_last() =~= body.take(i - start));
            assert(next.last() == v@[i as int]);
            assert forall|j: int| 0 <= j < next.len() implies is_digit(#[trigger] next[j]) by {
                if j < i - start {
                    assert(next[j] == body.take(i - start)[j]);
                }
            }
        }
        let d: u128 = (c - 48) as u128;
        let grown: u128 = acc * 10 + d;
        if grown > limit as u128 {
            proof {
                if all_digits(body) {
                    lemma_digits_value_prefix(body, i - start + 1);
                }
            }
            return None;
        }
        acc = grown;
        i += 1;
    }
    assert(body.take(i - start) =~= body);
    Some(acc as u64)
}

/// Reads `v[start..end]` as a signed decimal numeral.
pub fn parse_i64_in(v: &Vec<char>, start: usize, end: usize) -> (r: Option<i64>)
    requires
        start <= end <= v.len(),
    ensures
        r == parse_i64_spec(v@.subrange(start as int, end as int)),
{
    let ghost s = v@.subrange(start as int, end as int);
    if start == end {
        return None;
    }
    assert(s[0] == v@[start as int]);
    let negative = v[start] == '-';
    let from: usize = if negative || v[start] == '+' {
        start + 1
    } else {
        start
    };
    let limit: u64 = if negative {
        9223372036854775808u64
    } else {
        9223372036854775807u64
    };
    proof {
        let body = v@.subrange(from as int, end as int);
        assert(s.skip(0) =~= s);
        assert(s.skip(from - start) =~= body);
        assert(split_sign(s) == (negative, body));
        if all_digits(body) {
            lemma_digits_value_nonnegative(body);
        }
    }
    match parse_digits(v, from, end, limit) {
        Some(m) => {
            if !negative {
                Some(m as i64)
            } else if m == 9223372036854775808u64 {
                Some(i64::MIN)
            } else {
                Some(-(m as i64))
            }
        },
        None => None,
    }
}

/// Reads `v[start..end]` as an unsigned decimal numeral.
pub fn parse_u32_in(v: &Vec<char>, start: usize, end: usize) -> (r: Option<u32>)
    requires
        start <= end <= v.len(),
    ensures
        r == parse_u32_spec(v@.subrange(start as int, end as int)),
{
    let ghost s = v@.subrange(start as int, end as int);
    let from: usize = if start < end && v[start] == '+' {
        start + 1
    } else {
        start
    };
    proof {
        let body = v@.subrange(from as int, end as int);
        if start < end {
            assert(s[0] == v@[start as int]);
        }
        assert(s.skip(0) =~= s);
        assert(s.skip(from - start) =~= body);
        if all_digits(body) {
            lemma_digits_value_nonnegative(body);
        }
    }
    match parse_digits(v, from, end, 4294967295u64) {
        Some(m) => Some(m as u32),
        None => None,
    }
}

/// Reads a signed decimal numeral as an `i64`.
pub fn parse_i64(s: &str) -> (r: Option<i64>)
    ensures
        r == parse_i64_spec(s@),
{
    let v = chars_of(s);
    assert(v@.subrange(0, v@.len() as int) =~= v@);
    parse_i64_in(&v, 0, v.len())
}

/// Reads an unsigned decimal numeral as a `u32`.
pub fn parse_u32(s: &str) -> (r: Option<u32>)
    ensures
        r == parse_u32_spec(s@),
{
    let v = chars_of(s);
    assert(v@.subrange(0, v@.len() as int) =~= v@);
    parse_u32_in(&v, 0, v.len())
}

/// Appends the digits of `n` to `out`.
pub fn push_nat(out: &mut String, n: u64)
    ensures
        final(out)@ == old(out)@ + nat_text(n as nat),
    decreases n,
{
    if n >= 10 {
        push_nat(out, n / 10);
    }
    let d: u8 = (n % 10) as u8;
    out.push((d + 48) as char);
    proof {
        let before = old(out)@;
        if n >= 10 {
            assert(before + nat_text(n as nat) =~= (before + nat_text((n / 10) as nat)).push(
                digit_char((n % 10) as int),
            ));
        } else {
            assert(before + nat_text(n as nat) =~= before.push(digit_char(n as int)));
        }
    }
}

/// Appends the numeral of `v` to `out`.
pub fn push_i64(out: &mut String, v: i64)
    ensures
        final(out)@ == old(out)@ + int_text(v as int),
{
    if v < 0 {
        out.push('-');
        let m: u64 = (-(v as i128)) as u64;
        push_nat(out, m);
        assert(old(out)@.push('-') + nat_text(m as nat) =~= old(out)@ + int_text(v as int));
    } else {
        push_nat(out, v as u64);
    }
}

} // verus!
