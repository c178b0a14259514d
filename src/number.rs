//! Decimal numbers as vendor tools print them, and memory unit conversion.

use vstd::prelude::*;

verus! {

pub open spec fn is_digit(c: char) -> bool {
    '0' <= c && c <= '9'
}

pub open spec fn digit_value(c: char) -> nat {
    ((c as u32) - ('0' as u32)) as nat
}

/// The number that a string of decimal digits denotes.
pub open spec fn digits_value(s: Seq<char>) -> nat
    decreases s.len(),
{
    if s.len() == 0 {
        0
    } else {
        digits_value(s.drop_last()) * 10 + digit_value(s.last())
    }
}

/// The digits of an unsigned number: the text after one optional leading `+`.
pub open spec fn unsigned_digits(s: Seq<char>) -> Seq<char> {
    if s.len() > 0 && s[0] == '+' {
        s.drop_first()
    } else {
        s
    }
}

/// Whether `s` is an unsigned decimal number no larger than `max`, in the form
/// that `str::parse` accepts for unsigned integers.
pub open spec fn parses_unsigned(s: Seq<char>, max: nat) -> bool {
    let d = unsigned_digits(s);
    &&& d.len() > 0
    &&& forall|i: int| 0 <= i < d.len() ==> is_digit(#[trigger] d[i])
    &&& digits_value(d) <= max
}

/// The value of `s` as a `u32`, or 0 where it is not one.
pub open spec fn u32_or_zero(s: Seq<char>) -> u32 {
    if parses_unsigned(s, u32::MAX as nat) {
        digits_value(unsigned_digits(s)) as u32
    } else {
        0
    }
}

/// Decimal megabytes in `mib` binary mebibytes, rounded down.
pub open spec fn mb_of_mib(mib: nat) -> nat {
    mib * 1048576 / 1000000
}

proof fn lemma_prefix_value_le(s: Seq<char>, k: int)
    requires
        0 <= k <= s.len(),
    ensures
        digits_value(s.take(k)) <= digits_value(s),
    decreases s.len(),
{
    if k < s.len() {
        assert(s.drop_last().take(k) =~= s.take(k));
        lemma_prefix_value_le(s.drop_last(), k);
    } else {
        assert(s.take(k) =~= s);
    }
}

/// Parses `s` as an unsigned decimal number no larger than `max`.
pub fn parse_unsigned(s: &[char], max: u64) -> (r: Option<u64>)
    ensures
        r == (if parses_unsigned(s@, max as nat) {
            Some(digits_value(unsigned_digits(s@)) as u64)
        } else {
            None::<u64>
        }),
{
    let start: usize = if s.len() > 0 && s[0] == '+' { 1 } else { 0 };
    let ghost d = unsigned_digits(s@);
    assert(d =~= s@.subrange(start as int, s@.len() as int));
    if start == s.len() {
        return None;
    }
    let mut acc: u64 = 0;
    let mut i: usize = start;
    while i < s.len()
        invariant
            start <= i <= s@.len(),
            d =~= s@.subrange(start as int, s@.len() as int),
            d == unsigned_digits(s@),
            acc as nat == digits_value(d.take(i - start)),
            acc <= max,
            forall|j: int| 0 <= j < i - start ==> is_digit(#[trigger] d[j]),
        decreases s@.len() - i,
    {
        let c = s[i];
        assert(d[i - start] == c);
        if !('0' <= c && c <= '9') {
            assert(!is_digit(d[i - start]));
            return None;
        }
        let v = (c as u32 - '0' as u32) as u64;
        let ghost k = i - start;
        assert(d.take(k + 1).drop_last() =~= d.take(k));
        assert(digits_value(d.take(k + 1)) == acc * 10 + v);
        if v > max || acc > (max - v) / 10 {
            assert(acc * 10 + v > max) by (nonlinear_arith)
                requires
                    v > max || acc > (max - v) / 10,
                    v <= 9,
            ;
            proof {
                lemma_prefix_value_le(d, k + 1);
            }
            assert(digits_value(d) > max);
            return None;
        }
        assert(acc * 10 + v <= max) by (nonlinear_arith)
            requires
                v <= max,
                acc <= (max - v) / 10,
        ;
        acc = acc * 10 + v;
        i = i + 1;
    }
    assert(d.take(d.len() as int) =~= d);
    Some(acc)
}

/// Parses `s` as a `u32`, falling back to 0 on anything else.
pub fn parse_u32_or_zero(s: &[char]) -> (r: u32)
    ensures
        r == u32_or_zero(s@),
{
    match parse_unsigned(s, u32::MAX as u64) {
        Some(v) => v as u32,
        None => 0,
    }
}

/// Converts binary mebibytes to decimal megabytes, rounding down.
pub fn mib_to_mb(mib: u32) -> (r: u64)
    ensures
        r as nat == mb_of_mib(mib as nat),
{
    assert(mib as u64 * 1048576 <= u64::MAX) by (nonlinear_arith)
        requires
            mib <= u32::MAX,
    ;
    mib as u64 * 1048576 / 1000000
}

} // verus!
