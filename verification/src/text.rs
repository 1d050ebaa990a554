//! Text helpers for the lines that the screen shows.

use vstd::prelude::*;
use vstd::string::*;

verus! {

/// `count` spaces.
pub open spec fn spaces(count: nat) -> Seq<char> {
    Seq::new(count, |i: int| ' ')
}

/// `text`, filled up with spaces on the right to `width` characters. Text
/// that is already that long or longer is left as it is.
pub open spec fn padded(text: Seq<char>, width: nat) -> Seq<char> {
    if text.len() >= width {
        text
    } else {
        text + spaces((width - text.len()) as nat)
    }
}

/// The text that `{:?}` formatting gives for a string: the string in double
/// quotes, with the characters that cannot stand for themselves escaped.
pub uninterp spec fn debug_text(text: Seq<char>) -> Seq<char>;

/// Pads `text` with spaces on the right to `width` characters.
pub fn pad_right(text: &str, width: usize) -> (out: String)
    ensures
        out@ == padded(text@, width as nat),
{
    let len = text.unicode_len();
    let mut out = String::from_str(text);
    let mut filled: usize = len;
    while filled < width
        invariant
            len == text@.len(),
            len <= filled,
            filled <= width || filled == len,
            out@ == text@ + spaces((filled - len) as nat),
        decreases width - filled,
    {
        proof {
            reveal_strlit(" ");
        }
        out.append(" ");
        filled = filled + 1;
        assert(out@ =~= text@ + spaces((filled - len) as nat));
    }
    assert(out@ =~= padded(text@, width as nat));
    out
}

/// Formats a string slice with `format!("{:?}", ..)`, that is with the
/// standard library's `Debug` for `str`. Not verified: the contract takes
/// it on trust that the result depends on the characters of the string
/// alone, and gives it the name [`debug_text`] without saying what it holds.
#[verifier::external_body]
pub(crate) fn quoted(text: &str) -> (out: String)
    ensures
        out@ == debug_text(text@),
{
    format!("{:?}", text)
}

} // verus!
