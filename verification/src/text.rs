//! Building text: decimal numbers and quoted strings.

use vstd::prelude::*;

verus! {

/// Calls `String::push`, which appends one character to the string.
#[verifier::external_body]
pub(crate) fn push_char(s: &mut String, c: char)
    ensures
        final(s)@ == old(s)@.push(c),
{
    s.push(c)
}

/// The decimal digit for `d` (0..=9).
pub open spec fn decimal_digit(d: nat) -> char {
    (48 + d) as char
}

/// The decimal notation of `n`, without leading zeros.
pub open spec fn decimal(n: nat) -> Seq<char>
    decreases n,
{
    if n < 10 {
        seq![decimal_digit(n)]
    } else {
        decimal(n / 10).push(decimal_digit(n % 10))
    }
}

/// Appends the decimal notation of `n`.
pub fn push_decimal(s: &mut String, n: usize)
    ensures
        final(s)@ == old(s)@ + decimal(n as nat),
    decreases n,
{
    if n >= 10 {
        push_decimal(s, n / 10);
    }
    let d = (n % 10) as u8;
    push_char(s, (48 + d) as char);
    assert(n >= 10 ==> decimal(n as nat) == decimal((n / 10) as nat).push(decimal_digit((n % 10) as nat)));
}

/// What `<str as Debug>::fmt` writes for a string: the string between double
/// quotes, with quotes, backslashes and unprintable characters escaped.
pub uninterp spec fn debug_text(s: Seq<char>) -> Seq<char>;

/// Calls `<str as Debug>::fmt` through `format!("{:?}")`, which writes the
/// string between double quotes, escaping what needs it.
#[verifier::external_body]
pub(crate) fn debug_quoted(s: &str) -> (d: String)
    ensures
        d@ == debug_text(s@),
        d@.len() >= 2,
        d@[0] == '"',
        d@.last() == '"',
{
    format!("{:?}", s)
}

} // verus!
