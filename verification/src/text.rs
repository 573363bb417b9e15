//! A piece of text drawn on screen.
use vstd::prelude::*;
use crate::language::Language;

verus! {

/// A text shape: what it says.
#[derive(Clone, Debug, PartialEq)]
pub struct Text {
    pub text: Language,
}

impl Default for Text {
    /// The first line of the language file.
    fn default() -> (t: Self)
        ensures
            t.text == Language::Code(0),
    {
        Self { text: Language::Code(0) }
    }
}

impl Text {
    /// A text that says `input` itself.
    pub fn new_from_string(input: String) -> (t: Self)
        ensures
            t.text == Language::Text(input),
    {
        Self { text: Language::Text(input) }
    }

    /// A text that says `text`.
    pub fn new(text: Language) -> (t: Self)
        ensures
            t.text == text,
    {
        Self { text }
    }
}

} // verus!
