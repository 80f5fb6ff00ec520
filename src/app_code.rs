use vstd::prelude::*;

verus! {

/// Whether `c` is one of the ASCII decimal digits `0` to `9`.
pub open spec fn is_decimal_digit(c: char) -> bool {
    '0' <= c && c <= '9'
}

/// Whether every character of `s` is an ASCII decimal digit.
pub open spec fn all_decimal_digits(s: Seq<char>) -> bool {
    forall|i: int| 0 <= i < s.len() ==> is_decimal_digit(#[trigger] s[i])
}

/// The number written by the decimal digits `s`, most significant first.
pub open spec fn decimal_value(s: Seq<char>) -> nat
    decreases s.len(),
{
    if s.len() == 0 {
        0
    } else {
        decimal_value(s.drop_last()) * 10 + (s.last() as int - '0' as int) as nat
    }
}

/// The digits of an unsigned number: `s` without one leading `+`, if it has one.
pub open spec fn unsigned_digits(s: Seq<char>) -> Seq<char> {
    if s.len() > 0 && s[0] == '+' {
        s.drop_first()
    } else {
        s
    }
}

/// The value of the unsigned decimal number written in `s`, if `s` is an
/// optional `+` followed by at least one ASCII digit and the value is at
/// most `max`; no other character, whitespace included, is allowed.
pub open spec fn parse_unsigned(s: Seq<char>, max: nat) -> Option<nat> {
    let d = unsigned_digits(s);
    if d.len() > 0 && all_decimal_digits(d) && decimal_value(d) <= max {
        Some(decimal_value(d))
    } else {
        None
    }
}

/// A type that an application-level status is read into, from the text
/// that an error's metadata gives for it.
pub trait AppCode: Sized {
    /// The value that the text `s` stands for, or `None` where `s` is not
    /// a valid representation of a value of this type.
    spec fn parsed(s: Seq<char>) -> Option<Self>;

    /// Reads the text `s` as a value of this type.
    fn parse_app_code(s: &str) -> (r: Option<Self>)
        ensures
            r == Self::parsed(s@),
    ;
}

/// Relies on `u16`'s `FromStr` (`str::parse::<u16>`): it accepts exactly an
/// optional `+` followed by one or more ASCII decimal digits whose value
/// fits in `u16`, and returns that value.
#[verifier::external_body]
fn parse_u16(s: &str) -> (r: Option<u16>)
    ensures
        match r {
            Some(v) => parse_unsigned(s@, 0xffff) == Some(v as nat),
            None => parse_unsigned(s@, 0xffff) is None,
        },
{
    s.parse::<u16>().ok()
}

impl AppCode for u16 {
    open spec fn parsed(s: Seq<char>) -> Option<u16> {
        match parse_unsigned(s, 0xffff) {
            Some(v) => Some(v as u16),
            None => None,
        }
    }

    fn parse_app_code(s: &str) -> (r: Option<u16>) {
        parse_u16(s)
    }
}

} // verus!
