//! Building blocks for text: what the verified code needs from `str` and
//! `String`, the classes of characters, and the views of sequences of viewable
//! values.
use vstd::prelude::*;
use vstd::string::StringExecFns;

verus! {

/// The views of the elements of a sequence, in order.
pub open spec fn views<T: View>(items: Seq<T>) -> Seq<T::V> {
    items.map_values(|item: T| item@)
}

/// Whether a character is whitespace: whether it has the Unicode property
/// `White_Space`, which these twenty-five characters have and no other.
pub open spec fn is_whitespace(c: char) -> bool {
    ||| '\u{9}' <= c <= '\u{d}'
    ||| c == ' '
    ||| c == '\u{85}'
    ||| c == '\u{a0}'
    ||| c == '\u{1680}'
    ||| '\u{2000}' <= c <= '\u{200a}'
    ||| c == '\u{2028}'
    ||| c == '\u{2029}'
    ||| c == '\u{202f}'
    ||| c == '\u{205f}'
    ||| c == '\u{3000}'
}

/// Tells whether a character is whitespace.
pub fn whitespace(c: char) -> (yes: bool)
    ensures
        yes == is_whitespace(c),
{
    ('\u{9}' <= c && c <= '\u{d}') || c == ' ' || c == '\u{85}' || c == '\u{a0}' || c
        == '\u{1680}' || ('\u{2000}' <= c && c <= '\u{200a}') || c == '\u{2028}' || c
        == '\u{2029}' || c == '\u{202f}' || c == '\u{205f}' || c == '\u{3000}'
}

/// `str::eq`: two string slices are equal when they hold the same characters.
#[verifier::external_body]
pub(crate) fn same_text(a: &str, b: &str) -> (same: bool)
    ensures
        same == (a@ == b@),
{
    a == b
}

/// `String::push`: the character is appended to the end of the string.
#[verifier::external_body]
pub(crate) fn push_char(text: &mut String, c: char)
    ensures
        final(text)@ == old(text)@.push(c),
{
    text.push(c)
}

/// Whether a character is one of the ten decimal digits.
pub open spec fn is_digit(c: char) -> bool {
    '0' <= c <= '9'
}

/// The concatenation of two pieces of text.
pub fn join(a: &str, b: &str) -> (joined: String)
    ensures
        joined@ == a@ + b@,
{
    String::from_str(a).concat(b)
}

} // verus!
