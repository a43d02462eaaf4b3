//! Text made safe for a place in an HTML page, by `ructe`'s templates.

use ructe::templates::ToHtml;
use vstd::prelude::*;

verus! {

/// What stands for one character in HTML text: the five characters that
/// have a meaning in markup become entities, every other one stays.
pub open spec fn escaped_char(c: char) -> Seq<char> {
    if c == '"' {
        "&quot;"@
    } else if c == '&' {
        "&amp;"@
    } else if c == '<' {
        "&lt;"@
    } else if c == '>' {
        "&gt;"@
    } else if c == '\'' {
        "&#39;"@
    } else {
        seq![c]
    }
}

/// A text with each of its characters escaped, in order.
pub open spec fn escaped(text: Seq<char>) -> Seq<char>
    decreases text.len(),
{
    if text.len() == 0 {
        Seq::empty()
    } else {
        escaped(text.drop_last()) + escaped_char(text.last())
    }
}

/// Calls `ructe::templates::ToHtml::to_html` on a string slice, into a
/// buffer. It writes the text with `"`, `&`, `<`, `>` and `'` replaced by
/// `&quot;`, `&amp;`, `&lt;`, `&gt;` and `&#39;`, and every other
/// character as it is.
#[verifier::external_body]
pub(crate) fn escape(text: &str) -> (safe: String)
    ensures
        safe@ == escaped(text@),
{
    let mut buffer: Vec<u8> = Vec::new();
    let _ = text.to_html(&mut buffer);
    String::from_utf8_lossy(&buffer).into_owned()
}

} // verus!
