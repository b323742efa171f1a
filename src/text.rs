use vstd::prelude::*;
use vstd::string::StringExecFns;

verus! {

/// The character of a decimal digit.
pub open spec fn digit_char(d: int) -> char {
    if d == 0 {
        '0'
    } else if d == 1 {
        '1'
    } else if d == 2 {
        '2'
    } else if d == 3 {
        '3'
    } else if d == 4 {
        '4'
    } else if d == 5 {
        '5'
    } else if d == 6 {
        '6'
    } else if d == 7 {
        '7'
    } else if d == 8 {
        '8'
    } else {
        '9'
    }
}

/// The decimal digits of `n`, most significant first, without leading zeros.
pub open spec fn decimal(n: nat) -> Seq<char>
    decreases n,
{
    if n < 10 {
        seq![digit_char(n as int)]
    } else {
        decimal(n / 10).push(digit_char((n % 10) as int))
    }
}

/// The decimal digits of `n`, with zeros in front up to `width` characters.
pub open spec fn zero_padded(n: nat, width: nat) -> Seq<char> {
    let d = decimal(n);
    if d.len() >= width {
        d
    } else {
        Seq::new((width - d.len()) as nat, |_i: int| '0') + d
    }
}

/// The number of decimal digits of `n`.
pub(crate) fn decimal_len(n: usize) -> (r: usize)
    ensures
        r == decimal(n as nat).len(),
        1 <= r <= n as int + 1,
    decreases n,
{
    if n < 10 {
        1
    } else {
        let r = decimal_len(n / 10);
        assert(decimal(n as nat) == decimal((n / 10) as nat).push(digit_char((n % 10) as int)));
        r + 1
    }
}

/// The text of one decimal digit.
pub(crate) fn digit_str(d: usize) -> (r: &'static str)
    requires
        d < 10,
    ensures
        r@ == seq![digit_char(d as int)],
{
    if d == 0 {
        proof { reveal_strlit("0"); }
        "0"
    } else if d == 1 {
        proof { reveal_strlit("1"); }
        "1"
    } else if d == 2 {
        proof { reveal_strlit("2"); }
        "2"
    } else if d == 3 {
        proof { reveal_strlit("3"); }
        "3"
    } else if d == 4 {
        proof { reveal_strlit("4"); }
        "4"
    } else if d == 5 {
        proof { reveal_strlit("5"); }
        "5"
    } else if d == 6 {
        proof { reveal_strlit("6"); }
        "6"
    } else if d == 7 {
        proof { reveal_strlit("7"); }
        "7"
    } else if d == 8 {
        proof { reveal_strlit("8"); }
        "8"
    } else {
        proof { reveal_strlit("9"); }
        "9"
    }
}

/// Appends the decimal digits of `n`.
pub(crate) fn append_decimal(s: &mut String, n: usize)
    ensures
        final(s)@ == old(s)@ + decimal(n as nat),
    decreases n,
{
    if n >= 10 {
        append_decimal(s, n / 10);
    }
    s.append(digit_str(n % 10));
    if n >= 10 {
        assert(decimal(n as nat) == decimal((n / 10) as nat).push(digit_char((n % 10) as int)));
        assert(final(s)@ =~= old(s)@ + decimal(n as nat));
    } else {
        assert(final(s)@ =~= old(s)@ + decimal(n as nat));
    }
}

} // verus!
