//! Decimal text: reading unsigned numbers the way `str::parse` does for
//! unsigned integers, and writing integers as `Display` does.

use vstd::prelude::*;

verus! {

/// An ASCII digit `0`..`9`.
pub open spec fn is_digit(b: u8) -> bool {
    48 <= b <= 57
}

pub open spec fn all_digits(s: Seq<u8>) -> bool {
    forall|i: int| 0 <= i < s.len() ==> is_digit(#[trigger] s[i])
}

/// The number that a string of decimal digits denotes.
pub open spec fn digits_value(s: Seq<u8>) -> nat
    decreases s.len(),
{
    if s.len() == 0 {
        0
    } else {
        digits_value(s.drop_last()) * 10 + (s.last() - 48) as nat
    }
}

/// The digits of an unsigned number: the text without one leading `+`.
pub open spec fn unsigned_body(s: Seq<u8>) -> Seq<u8> {
    if s.len() > 0 && s[0] == 43 {
        s.drop_first()
    } else {
        s
    }
}

/// An unsigned number no larger than `max`, written as an optional `+` followed
/// by one or more decimal digits; `None` for any other text.
pub open spec fn parse_unsigned_spec(s: Seq<u8>, max: nat) -> Option<nat> {
    let d = unsigned_body(s);
    if d.len() > 0 && all_digits(d) && digits_value(d) <= max {
        Some(digits_value(d))
    } else {
        None
    }
}

pub open spec fn parse_u32_spec(s: Seq<u8>) -> Option<u32> {
    match parse_unsigned_spec(s, u32::MAX as nat) {
        Some(v) => Some(v as u32),
        None => None,
    }
}

pub open spec fn parse_usize_spec(s: Seq<u8>) -> Option<usize> {
    match parse_unsigned_spec(s, usize::MAX as nat) {
        Some(v) => Some(v as usize),
        None => None,
    }
}

/// A prefix of a digit string never denotes more than the whole string.
proof fn lemma_prefix_value_le(s: Seq<u8>, k: int)
    requires
        all_digits(s),
        0 <= k <= s.len(),
    ensures
        digits_value(s.subrange(0, k)) <= digits_value(s),
    decreases s.len(),
{
    if k == s.len() {
        assert(s.subrange(0, k) =~= s);
    } else {
        let t = s.drop_last();
        assert(all_digits(t));
        lemma_prefix_value_le(t, k);
        assert(t.subrange(0, k) =~= s.subrange(0, k));
    }
}

/// Reads `s` as an unsigned decimal number no larger than `max`.
pub fn parse_unsigned(s: &[u8], max: u64) -> (r: Option<u64>)
    ensures
        r == (match parse_unsigned_spec(s@, max as nat) {
            Some(v) => Some(v as u64),
            None => None::<u64>,
        }),
{
    let start: usize = if s.len() > 0 && s[0] == 43 {
        1
    } else {
        0
    };
    let ghost body = unsigned_body(s@);
    assert(body =~= s@.subrange(start as int, s@.len() as int));
    if start >= s.len() {
        return None;
    }
    let mut acc: u64 = 0;
    let mut i: usize = start;
    while i < s.len()
        invariant
            start <= i <= s@.len(),
            start < s@.len(),
            body == unsigned_body(s@),
            body == s@.subrange(start as int, s@.len() as int),
            all_digits(s@.subrange(start as int, i as int)),
            acc == digits_value(s@.subrange(start as int, i as int)),
            acc <= max,
        decreases s@.len() - i,
    {
        let b = s[i];
        let ghost prefix = s@.subrange(start as int, i as int + 1);
        assert(prefix.drop_last() =~= s@.subrange(start as int, i as int));
        assert(body[i - start] == b);
        if b < 48 || b > 57 {
            assert(!all_digits(body));
            return None;
        }
        let d = (b - 48) as u64;
        if d > max || acc > (max - d) / 10 {
            assert(digits_value(prefix) > max);
            proof {
                if all_digits(body) {
                    assert(prefix =~= body.subrange(0, i - start + 1));
                    lemma_prefix_value_le(body, i - start + 1);
                }
            }
            return None;
        }
        acc = acc * 10 + d;
        i = i + 1;
    }
    assert(s@.subrange(start as int, i as int) =~= body);
    Some(acc)
}

/// Reads `s` as a `u32`, as `str::parse::<u32>` does.
pub fn parse_u32(s: &[u8]) -> (r: Option<u32>)
    ensures
        r == parse_u32_spec(s@),
{
    match parse_unsigned(s, u32::MAX as u64) {
        Some(v) => Some(v as u32),
        None => None,
    }
}

/// Reads `s` as a `usize`, as `str::parse::<usize>` does.
pub fn parse_usize(s: &[u8]) -> (r: Option<usize>)
    ensures
        r == parse_usize_spec(s@),
{
    match parse_unsigned(s, usize::MAX as u64) {
        Some(v) => Some(v as usize),
        None => None,
    }
}

/// The numbers among `args`, in order, with every argument that is not a `u32` left out.
pub open spec fn parsed_u32s(args: Seq<Vec<u8>>) -> Seq<u32>
    decreases args.len(),
{
    if args.len() == 0 {
        Seq::empty()
    } else {
        let rest = parsed_u32s(args.drop_last());
        match parse_u32_spec(args.last()@) {
            Some(v) => rest.push(v),
            None => rest,
        }
    }
}

/// The numbers among `args`, in order, with every argument that is not a `usize` left out.
pub open spec fn parsed_usizes(args: Seq<Vec<u8>>) -> Seq<usize>
    decreases args.len(),
{
    if args.len() == 0 {
        Seq::empty()
    } else {
        let rest = parsed_usizes(args.drop_last());
        match parse_usize_spec(args.last()@) {
            Some(v) => rest.push(v),
            None => rest,
        }
    }
}

/// Keeps the arguments that read as `u32`, in order, and drops the others.
pub fn parse_u32_args(args: &Vec<Vec<u8>>) -> (r: Vec<u32>)
    ensures
        r@ == parsed_u32s(args@),
{
    let mut r: Vec<u32> = Vec::new();
    let mut i: usize = 0;
    while i < args.len()
        invariant
            i <= args@.len(),
            r@ == parsed_u32s(args@.take(i as int)),
        decreases args@.len() - i,
    {
        assert(args@.take(i as int + 1).drop_last() =~= args@.take(i as int));
        match parse_u32(args[i].as_slice()) {
            Some(v) => r.push(v),
            None => {},
        }
        i = i + 1;
    }
    assert(args@.take(i as int) =~= args@);
    r
}

/// Keeps the arguments that read as `usize`, in order, and drops the others.
pub fn parse_usize_args(args: &Vec<Vec<u8>>) -> (r: Vec<usize>)
    ensures
        r@ == parsed_usizes(args@),
{
    let mut r: Vec<usize> = Vec::new();
    let mut i: usize = 0;
    while i < args.len()
        invariant
            i <= args@.len(),
            r@ == parsed_usizes(args@.take(i as int)),
        decreases args@.len() - i,
    {
        assert(args@.take(i as int + 1).drop_last() =~= args@.take(i as int));
        match parse_usize(args[i].as_slice()) {
            Some(v) => r.push(v),
            None => {},
        }
        i = i + 1;
    }
    assert(args@.take(i as int) =~= args@);
    r
}

/// The decimal digits of `n`, most significant first, without leading zeros.
pub open spec fn decimal_spec(n: nat) -> Seq<u8>
    decreases n,
{
    if n < 10 {
        seq![(48 + n) as u8]
    } else {
        decimal_spec(n / 10).push((48 + n % 10) as u8)
    }
}

/// How `Display` writes an `i32`: a `-` before the digits of a negative number.
pub open spec fn i32_text(n: i32) -> Seq<u8> {
    if n < 0 {
        seq![45u8] + decimal_spec((-n) as nat)
    } else {
        decimal_spec(n as nat)
    }
}

/// Appends the decimal digits of `n` to `out`.
pub fn push_decimal(out: &mut Vec<u8>, n: u64)
    ensures
        final(out)@ == old(out)@ + decimal_spec(n as nat),
    decreases n,
{
    if n >= 10 {
        push_decimal(out, n / 10);
    }
    out.push((48 + n % 10) as u8);
    assert(final(out)@ =~= old(out)@ + decimal_spec(n as nat));
}

/// Appends `n` in decimal to `out`, as `Display` writes it.
pub fn push_i32(out: &mut Vec<u8>, n: i32)
    ensures
        final(out)@ == old(out)@ + i32_text(n),
{
    if n < 0 {
        out.push(45u8);
        let m: u64 = (0i64 - n as i64) as u64;
        push_decimal(out, m);
    } else {
        push_decimal(out, n as u64);
    }
    assert(final(out)@ =~= old(out)@ + i32_text(n));
}

/// Writes `n` in decimal, as `Display` does.
pub fn format_i32(n: i32) -> (r: Vec<u8>)
    ensures
        r@ == i32_text(n),
{
    let mut out: Vec<u8> = Vec::new();
    push_i32(&mut out, n);
    assert(out@ =~= i32_text(n));
    out
}

pub(crate) proof fn lemma_decimal_digits(n: nat)
    ensures
        decimal_spec(n).len() > 0,
        all_digits(decimal_spec(n)),
        digits_value(decimal_spec(n)) == n,
    decreases n,
{
    if n >= 10 {
        lemma_decimal_digits(n / 10);
        let s = decimal_spec(n);
        assert(s.drop_last() =~= decimal_spec(n / 10));
        assert(s.last() == 48 + n % 10);
        assert(digits_value(s) == digits_value(decimal_spec(n / 10)) * 10 + n % 10);
        assert forall|i: int| 0 <= i < s.len() implies is_digit(#[trigger] s[i]) by {
            if i < s.len() - 1 {
                assert(s[i] == decimal_spec(n / 10)[i]);
            }
        }
        assert((n / 10) * 10 + n % 10 == n);
    } else {
        let s = decimal_spec(n);
        assert(s.drop_last() =~= Seq::<u8>::empty());
        assert(s.last() == 48 + n);
        assert(digits_value(s.drop_last()) == 0);
    }
}

/// Reading back what was written gives the number again: the decimal text of
/// any `n` up to `max` parses to `n`.
pub proof fn law_parse_inverts_decimal(n: nat, max: nat)
    requires
        n <= max,
    ensures
        parse_unsigned_spec(decimal_spec(n), max) == Some(n),
{
    lemma_decimal_digits(n);
    let s = decimal_spec(n);
    assert(is_digit(s[0]));
    assert(unsigned_body(s) == s);
}

/// The text of a non-negative `i32` parses back to the same number as a `u32`.
pub proof fn law_parse_u32_inverts_format_i32(n: i32)
    requires
        n >= 0,
    ensures
        parse_u32_spec(i32_text(n)) == Some(n as u32),
{
    law_parse_inverts_decimal(n as nat, u32::MAX as nat);
}

} // verus!
