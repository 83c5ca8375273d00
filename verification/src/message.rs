//! Human-readable messages for error values.
//!
//! The standard formatting traits cannot carry contracts, so every error
//! type of this crate renders itself through the `ErrorMessage` trait
//! instead, and the exact character sequence of each message is part of the
//! contract.
use vstd::prelude::*;

verus! {

/// Rendering of an error as a human-readable message.
pub trait ErrorMessage {
    /// The exact character sequence of the message.
    spec fn spec_message(&self) -> Seq<char>;

    /// Render the message.
    fn message(&self) -> (r: String)
        ensures
            r@ == self.spec_message(),
    ;
}

/// The decimal digit character for `d`; meaningful for `d < 10`.
pub open spec fn decimal_digit(d: nat) -> char {
    if d == 0 {
        '0'
    } else if d == 1 {
        '1'
    } else if d == 2 {
        '2'
    } else if d == 3 {
        '3'
    } else if d == 4 {
        '4'
    } else if d == 5 {
        '5'
    } else if d == 6 {
        '6'
    } else if d == 7 {
        '7'
    } else if d == 8 {
        '8'
    } else {
        '9'
    }
}

/// The usual decimal rendering of `n`, most significant digit first and
/// without leading zeroes (except for `n == 0` itself).
pub open spec fn decimal_seq(n: nat) -> Seq<char>
    decreases n,
{
    if n < 10 {
        seq![decimal_digit(n)]
    } else {
        decimal_seq(n / 10).push(decimal_digit(n % 10))
    }
}

/// Append the decimal rendering of `n` to `s`.
pub(crate) fn push_decimal(s: &mut String, n: usize)
    ensures
        final(s)@ == old(s)@ + decimal_seq(n as nat),
    decreases n,
{
    if n >= 10 {
        push_decimal(s, n / 10);
    }
    let d: usize = n % 10;
    proof {
        reveal_strlit("0");
        reveal_strlit("1");
        reveal_strlit("2");
        reveal_strlit("3");
        reveal_strlit("4");
        reveal_strlit("5");
        reveal_strlit("6");
        reveal_strlit("7");
        reveal_strlit("8");
        reveal_strlit("9");
    }
    match d {
        0 => s.append("0"),
        1 => s.append("1"),
        2 => s.append("2"),
        3 => s.append("3"),
        4 => s.append("4"),
        5 => s.append("5"),
        6 => s.append("6"),
        7 => s.append("7"),
        8 => s.append("8"),
        _ => s.append("9"),
    }
    proof {
        assert(seq![decimal_digit((n % 10) as nat)] =~= Seq::empty().push(
            decimal_digit((n % 10) as nat),
        ));
        if n >= 10 {
            assert(decimal_seq(n as nat) =~= decimal_seq((n / 10) as nat).push(
                decimal_digit((n % 10) as nat),
            ));
        }
        assert(s@ =~= old(s)@ + decimal_seq(n as nat));
    }
}

/// What `char::escape_default` produces for `c`.
pub uninterp spec fn escaped_char(c: char) -> Seq<char>;

/// Relies on `char::escape_default`: the escaped form depends on the
/// character alone, and printable ASCII other than single quote, double
/// quote and backslash stays as it is.
#[verifier::external_body]
pub(crate) fn escape_default_string(c: char) -> (r: String)
    ensures
        r@ == escaped_char(c),
        (0x20 <= c as u32 && c as u32 <= 0x7e && c != '\'' && c != '"' && c != '\\') ==> r@
            == seq![c],
{
    c.escape_default().collect()
}

} // verus!
