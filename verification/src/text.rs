//! Numbers as text: numerals in a radix and padding to a width.

use vstd::prelude::*;
use vstd::string::{StrSliceExecFns, StringExecFns};

verus! {

/// The character for a digit value below sixteen, lower case.
pub open spec fn digit_char(n: int) -> char {
    "0123456789abcdef"@[n]
}

/// The numeral of `value` in `radix`, without leading zeros.
pub open spec fn numeral(value: nat, radix: nat) -> Seq<char>
    decreases value,
    via numeral_decreases
{
    if value < radix || radix < 2 {
        seq![digit_char(value as int)]
    } else {
        numeral(value / radix, radix).push(digit_char((value % radix) as int))
    }
}

#[via_fn]
proof fn numeral_decreases(value: nat, radix: nat) {
    if !(value < radix || radix < 2) {
        lemma_quotient_is_smaller(value, radix);
    }
}

/// Dividing a number by a divisor of at least two that it reaches makes it
/// smaller.
pub proof fn lemma_quotient_is_smaller(value: nat, radix: nat)
    requires
        2 <= radix <= value,
    ensures
        value / radix < value,
{
    assert(value / radix < value) by (nonlinear_arith)
        requires
            2 <= radix <= value,
    ;
}

/// `count` copies of `fill`.
pub open spec fn repeated(fill: char, count: nat) -> Seq<char> {
    Seq::new(count, |i: int| fill)
}

/// `text` filled up on the left with `fill` to at least `width` characters.
pub open spec fn padded(text: Seq<char>, width: nat, fill: char) -> Seq<char> {
    if text.len() >= width {
        text
    } else {
        repeated(fill, (width - text.len()) as nat) + text
    }
}

/// The text of one digit.
pub fn digit_text(n: u64) -> (text: &'static str)
    requires
        n < 16,
    ensures
        text@ == seq![digit_char(n as int)],
{
    proof {
        reveal_strlit("0123456789abcdef");
    }
    let text = "0123456789abcdef".substring_char(n as usize, n as usize + 1);
    proof {
        assert(text@ =~= seq![digit_char(n as int)]);
    }
    text
}

/// Appends the numeral of `value` in `radix`.
pub fn push_numeral(out: &mut String, value: u64, radix: u64)
    requires
        2 <= radix <= 16,
    ensures
        final(out)@ == old(out)@ + numeral(value as nat, radix as nat),
    decreases value,
{
    if value < radix {
        out.append(digit_text(value));
        proof {
            assert(out@ =~= old(out)@ + numeral(value as nat, radix as nat));
        }
    } else {
        proof {
            lemma_quotient_is_smaller(value as nat, radix as nat);
        }
        push_numeral(out, value / radix, radix);
        out.append(digit_text(value % radix));
        proof {
            assert(out@ =~= old(out)@ + numeral(value as nat, radix as nat));
        }
    }
}

/// The number of digits of `value` in `radix`.
pub fn numeral_len(value: u64, radix: u64) -> (len: u64)
    requires
        2 <= radix <= 16,
    ensures
        len == numeral(value as nat, radix as nat).len(),
{
    let mut len: u64 = 1;
    let mut rest: u64 = value;
    while rest >= radix
        invariant
            2 <= radix <= 16,
            1 <= len,
            len + rest <= value + 1,
            numeral(value as nat, radix as nat).len() == numeral(rest as nat, radix as nat).len()
                + len - 1,
        decreases rest,
    {
        proof {
            lemma_quotient_is_smaller(rest as nat, radix as nat);
        }
        rest = rest / radix;
        len = len + 1;
    }
    len
}

/// Appends `count` copies of the one-character text `fill`.
pub fn push_repeated(out: &mut String, fill: &str, count: usize)
    requires
        fill@.len() == 1,
    ensures
        final(out)@ == old(out)@ + repeated(fill@[0], count as nat),
{
    let mut i: usize = 0;
    while i < count
        invariant
            i <= count,
            fill@.len() == 1,
            out@ == old(out)@ + repeated(fill@[0], i as nat),
        decreases count - i,
    {
        out.append(fill);
        i = i + 1;
        proof {
            assert(out@ =~= old(out)@ + repeated(fill@[0], i as nat));
        }
    }
    proof {
        assert(old(out)@ + repeated(fill@[0], 0) =~= old(out)@);
    }
}

/// Appends the numeral of `value` in `radix`, filled up on the left with
/// the one-character text `fill` to at least `width` characters.
pub fn push_padded_numeral(out: &mut String, value: u64, radix: u64, width: usize, fill: &str)
    requires
        2 <= radix <= 16,
        fill@.len() == 1,
    ensures
        final(out)@ == old(out)@ + padded(
            numeral(value as nat, radix as nat),
            width as nat,
            fill@[0],
        ),
{
    let len: u64 = numeral_len(value, radix);
    if len < width as u64 {
        push_repeated(out, fill, width - len as usize);
    }
    let ghost filled = out@;
    push_numeral(out, value, radix);
    proof {
        assert(out@ =~= old(out)@ + padded(
            numeral(value as nat, radix as nat),
            width as nat,
            fill@[0],
        ));
    }
}

} // verus!
