use vstd::prelude::*;

verus! {

/// What `char::escape_unicode` writes for `c`: `\u{`, the hexadecimal
/// digits of its code point, and `}`.
pub uninterp spec fn unicode_escape_of(c: char) -> Seq<char>;

/// Whether `c` is printable ASCII, from space to tilde.
pub open spec fn is_printable_ascii(c: char) -> bool {
    ' ' <= c && c <= '~'
}

/// Rust's default escaping of one character: tab, carriage return and
/// line feed as `\t`, `\r`, `\n`; quotes and backslash behind a backslash;
/// other printable ASCII unchanged; anything else as a Unicode escape.
pub open spec fn default_escape(c: char) -> Seq<char> {
    if c == '\t' {
        seq!['\\', 't']
    } else if c == '\r' {
        seq!['\\', 'r']
    } else if c == '\n' {
        seq!['\\', 'n']
    } else if c == '\'' || c == '"' || c == '\\' {
        seq!['\\', c]
    } else if is_printable_ascii(c) {
        seq![c]
    } else {
        unicode_escape_of(c)
    }
}

/// Relies on `char::escape_default`, which documents the escaping that
/// `default_escape` states.
#[verifier::external_body]
pub(crate) fn escape_default_char(c: char) -> (r: String)
    ensures
        r@ == default_escape(c),
        !is_printable_ascii(c) && c != '\t' && c != '\r' && c != '\n' ==> r@ == unicode_escape_of(c),
{
    c.escape_default().to_string()
}

/// Relies on `String::push`: appends one character at the end.
#[verifier::external_body]
pub(crate) fn push_char(s: &mut String, c: char)
    ensures
        final(s)@ == old(s)@.push(c),
{
    s.push(c)
}

} // verus!
