//! Unsigned decimal numbers written in ASCII, as read from configuration text.
use vstd::prelude::*;

verus! {

/// True when `c` is an ASCII decimal digit.
pub open spec fn is_digit(c: u8) -> bool {
    0x30 <= c <= 0x39
}

/// The numeric value of a sequence of ASCII decimal digits, most significant first.
pub open spec fn digits_value(d: Seq<u8>) -> nat
    decreases d.len(),
{
    if d.len() == 0 {
        0
    } else {
        digits_value(d.drop_last()) * 10 + (d.last() - 0x30) as nat
    }
}

/// The digits of a number written with an optional leading `+`.
pub open spec fn unsigned_digits(s: Seq<u8>) -> Seq<u8> {
    if s.len() > 0 && s[0] == 0x2b {
        s.drop_first()
    } else {
        s
    }
}

/// True when `s` is an unsigned decimal number no greater than `max`: an optional
/// `+`, then one or more digits.
pub open spec fn is_decimal_at_most(s: Seq<u8>, max: nat) -> bool {
    let d = unsigned_digits(s);
    &&& d.len() > 0
    &&& forall|i: int| 0 <= i < d.len() ==> is_digit(#[trigger] d[i])
    &&& digits_value(d) <= max
}

/// What `s` denotes as a decimal number bounded by `max`, if it is one.
pub open spec fn decimal_at_most(s: Seq<u8>, max: nat) -> Option<nat> {
    if is_decimal_at_most(s, max) {
        Some(digits_value(unsigned_digits(s)))
    } else {
        None
    }
}

/// Reads the bytes `b[start..end]` as a decimal number no greater than `max`.
pub fn parse_decimal(b: &[u8], start: usize, end: usize, max: u32) -> (r: Option<u32>)
    requires
        start <= end <= b@.len(),
        max <= 0xffff,
    ensures
        r matches Some(v) ==> decimal_at_most(b@.subrange(start as int, end as int), max as nat)
            == Some(v as nat),
        r is None ==> decimal_at_most(b@.subrange(start as int, end as int), max as nat) is None,
{
    let ghost s = b@.subrange(start as int, end as int);
    let mut first: usize = start;
    if start < end && b[start] == 0x2b {
        first = start + 1;
    }
    let ghost d = b@.subrange(first as int, end as int);
    assert(d =~= unsigned_digits(s));
    if first == end {
        return None;
    }
    // `acc` is the value read so far, held at `max + 1` once it exceeds `max`.
    let mut acc: u32 = 0;
    let mut i: usize = first;
    while i < end
        invariant
            first <= i <= end <= b@.len(),
            d == b@.subrange(first as int, end as int),
            s == b@.subrange(start as int, end as int),
            d == unsigned_digits(s),
            max <= 0xffff,
            acc <= max + 1,
            forall|j: int| 0 <= j < i - first ==> is_digit(#[trigger] d[j]),
            acc == (if digits_value(d.take(i - first)) <= max as nat {
                digits_value(d.take(i - first))
            } else {
                max as nat + 1
            }),
        decreases end - i,
    {
        let c = b[i];
        assert(c == d[i - first]);
        if c < 0x30 || c > 0x39 {
            assert(!is_digit(d[i - first]));
            return None;
        }
        let ghost prev = d.take(i - first);
        assert(d.take(i - first + 1).drop_last() =~= prev);
        let next = acc * 10 + (c - 0x30) as u32;
        if next > max {
            acc = max + 1;
        } else {
            acc = next;
        }
        i = i + 1;
    }
    assert(d.take(end - first) =~= d);
    if acc > max {
        None
    } else {
        Some(acc)
    }
}

} // verus!
