//! The two languages of the interface.

use vstd::prelude::*;
use vstd::string::*;

verus! {

#[derive(Clone, Copy, Debug, PartialEq, Eq, Structural)]
pub enum Language {
    English,
    Chinese,
}

impl Language {
    pub open spec fn other(self) -> Language {
        match self {
            Language::English => Language::Chinese,
            Language::Chinese => Language::English,
        }
    }

    /// The one of two texts that is in this language.
    pub open spec fn pick(self, english: Seq<char>, chinese: Seq<char>) -> Seq<char> {
        match self {
            Language::English => english,
            Language::Chinese => chinese,
        }
    }

    pub fn toggle(self) -> (r: Language)
        ensures
            r == self.other(),
    {
        match self {
            Language::English => Language::Chinese,
            Language::Chinese => Language::English,
        }
    }

    /// The one of two texts that is in this language.
    pub fn text(self, english: &'static str, chinese: &'static str) -> (r: &'static str)
        ensures
            r@ == self.pick(english@, chinese@),
    {
        match self {
            Language::English => english,
            Language::Chinese => chinese,
        }
    }
}

/// Switching the language twice changes nothing.
pub proof fn law_language_toggles_back(language: Language)
    ensures
        language.other().other() == language,
        language.other() != language,
{
}

} // verus!
