//! The language of a run of text.

use vstd::prelude::*;
use vstd::string::*;

verus! {

/// A language, named by its tag such as `en` or `fa`; the empty tag stands
/// for no language.
#[derive(Debug, PartialEq, Eq)]
pub struct Language {
    tag: String,
}

impl View for Language {
    type V = Seq<char>;

    closed spec fn view(&self) -> Seq<char> {
        self.tag@
    }
}

impl Language {
    /// No language.
    pub fn invalid() -> (language: Language)
        ensures
            language@ == Seq::<char>::empty(),
    {
        Language { tag: String::new() }
    }

    /// The language that a tag names.
    pub fn from_string(tag: &str) -> (language: Language)
        ensures
            language@ == tag@,
    {
        Language { tag: tag.to_owned() }
    }

    /// The tag of the language.
    pub fn to_string(&self) -> (tag: String)
        ensures
            tag@ == self@,
    {
        self.tag.clone()
    }

    /// Whether this is a language at all.
    pub fn is_valid(&self) -> (valid: bool)
        ensures
            valid == (self@.len() > 0),
    {
        !self.tag.as_str().is_empty()
    }
}

impl Clone for Language {
    fn clone(&self) -> (language: Language)
        ensures
            language@ == self@,
    {
        Language { tag: self.tag.clone() }
    }
}

} // verus!
