//! Putting texts together.

use vstd::prelude::*;
use vstd::string::StringExecFns;

verus! {

/// A text behind its label.
pub fn labelled(label: &str, text: &str) -> (line: String)
    ensures
        line@ == label@ + text@,
{
    let mut line = label.to_owned();
    line.append(text);
    line
}

/// Three texts, one after the other.
pub fn framed(before: &str, middle: &str, after: &str) -> (text: String)
    ensures
        text@ == before@ + middle@ + after@,
{
    let mut text = before.to_owned();
    text.append(middle);
    text.append(after);
    text
}

/// Whether `text` is the word `word`.
pub fn is_word(text: &String, word: &str) -> (same: bool)
    ensures
        same == (text@ == word@),
{
    let owned = word.to_owned();
    *text == owned
}

} // verus!
