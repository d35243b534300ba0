//! Decimal text of integers, as characters and as ASCII bytes.
use vstd::prelude::*;

verus! {

/// The ASCII digit for `d` (0 to 9).
pub open spec fn digit_char(d: nat) -> char {
    if d == 0 { '0' }
    else if d == 1 { '1' }
    else if d == 2 { '2' }
    else if d == 3 { '3' }
    else if d == 4 { '4' }
    else if d == 5 { '5' }
    else if d == 6 { '6' }
    else if d == 7 { '7' }
    else if d == 8 { '8' }
    else { '9' }
}

/// The decimal digits of `n`, most significant first, without leading zeros.
pub open spec fn digits(n: nat) -> Seq<char>
    decreases n,
{
    if n < 10 {
        seq![digit_char(n)]
    } else {
        digits(n / 10).push(digit_char(n % 10))
    }
}

/// The decimal text of `n`: a minus sign for negative numbers, then the digits.
pub open spec fn decimal_text(n: int) -> Seq<char> {
    if n < 0 {
        seq!['-'] + digits((-n) as nat)
    } else {
        digits(n as nat)
    }
}

/// The decimal text of `n` as ASCII bytes.
pub open spec fn decimal_bytes(n: int) -> Seq<u8> {
    decimal_text(n).map_values(|c: char| c as u8)
}

/// The one-character string of the digit `d`.
fn digit_str(d: u64) -> (r: &'static str)
    requires
        d < 10,
    ensures
        r@ == seq![digit_char(d as nat)],
{
    proof {
        reveal_strlit("0");
        reveal_strlit("1");
        reveal_strlit("2");
        reveal_strlit("3");
        reveal_strlit("4");
        reveal_strlit("5");
        reveal_strlit("6");
        reveal_strlit("7");
        reveal_strlit("8");
        reveal_strlit("9");
    }
    let r = if d == 0 {
        "0"
    } else if d == 1 {
        "1"
    } else if d == 2 {
        "2"
    } else if d == 3 {
        "3"
    } else if d == 4 {
        "4"
    } else if d == 5 {
        "5"
    } else if d == 6 {
        "6"
    } else if d == 7 {
        "7"
    } else if d == 8 {
        "8"
    } else {
        "9"
    };
    r
}

/// Append the digits of `n` to `s`.
fn append_digits(s: &mut String, n: u64)
    ensures
        final(s)@ == old(s)@ + digits(n as nat),
    decreases n,
{
    if n >= 10 {
        append_digits(s, n / 10);
    }
    s.append(digit_str(n % 10));
    assert(s@ =~= old(s)@ + digits(n as nat));
}

/// The magnitude of `n`.
fn magnitude(n: i32) -> (m: u64)
    ensures
        m as int == if n < 0 { -n } else { n as int },
{
    if n < 0 {
        (-(n as i64)) as u64
    } else {
        n as u64
    }
}

/// Append the decimal text of `n` to `s`.
pub fn append_decimal(s: &mut String, n: i32)
    ensures
        final(s)@ == old(s)@ + decimal_text(n as int),
{
    if n < 0 {
        proof {
            reveal_strlit("-");
        }
        s.append("-");
        let m = magnitude(n);
        append_digits(s, m);
    } else {
        append_digits(s, magnitude(n));
    }
}

/// Append the decimal text of `n` to `out`, as ASCII bytes.
pub fn push_decimal_bytes(out: &mut Vec<u8>, n: i32)
    ensures
        final(out)@ == old(out)@ + decimal_bytes(n as int),
{
    let mut s = String::new();
    append_decimal(&mut s, n);
    let text = s.as_str();
    let len = text.unicode_len();
    let mut i: usize = 0;
    while i < len
        invariant
            len == text@.len(),
            text@ == decimal_text(n as int),
            i <= len,
            out@ == old(out)@ + text@.subrange(0, i as int).map_values(|c: char| c as u8),
        decreases len - i,
    {
        let c = text.get_char(i);
        out.push(c as u8);
        assert(text@.subrange(0, i + 1) =~= text@.subrange(0, i as int).push(c));
        i = i + 1;
    }
    assert(text@.subrange(0, len as int) =~= text@);
}

} // verus!
