//! Languages that package content can be selected by.

use vstd::prelude::*;
use crate::text::str_eq;

verus! {

/// A language of the game's interface.
#[derive(Debug, Clone, Copy, PartialEq, Eq, Structural)]
pub enum Language {
    AmericanEnglish,
    BritishEnglish,
    French,
    German,
    Spanish,
    Italian,
    Portuguese,
    Russian,
    Japanese,
    Korean,
    SimplifiedChinese,
    TraditionalChinese,
}

impl Language {
    /// The language that `s` names.
    pub open spec fn parse(s: Seq<char>) -> Option<Language> {
        if s == "american_english"@ {
            Some(Language::AmericanEnglish)
        } else if s == "british_english"@ {
            Some(Language::BritishEnglish)
        } else if s == "french"@ {
            Some(Language::French)
        } else if s == "german"@ {
            Some(Language::German)
        } else if s == "spanish"@ {
            Some(Language::Spanish)
        } else if s == "italian"@ {
            Some(Language::Italian)
        } else if s == "portuguese"@ {
            Some(Language::Portuguese)
        } else if s == "russian"@ {
            Some(Language::Russian)
        } else if s == "japanese"@ {
            Some(Language::Japanese)
        } else if s == "korean"@ {
            Some(Language::Korean)
        } else if s == "simplified_chinese"@ {
            Some(Language::SimplifiedChinese)
        } else if s == "traditional_chinese"@ {
            Some(Language::TraditionalChinese)
        } else {
            None
        }
    }

    /// Parse a language from its name.
    pub fn parse_from_str(string: &str) -> (r: Option<Self>)
        ensures
            r == Self::parse(string@),
    {
        if str_eq(string, "american_english") {
            Some(Self::AmericanEnglish)
        } else if str_eq(string, "british_english") {
            Some(Self::BritishEnglish)
        } else if str_eq(string, "french") {
            Some(Self::French)
        } else if str_eq(string, "german") {
            Some(Self::German)
        } else if str_eq(string, "spanish") {
            Some(Self::Spanish)
        } else if str_eq(string, "italian") {
            Some(Self::Italian)
        } else if str_eq(string, "portuguese") {
            Some(Self::Portuguese)
        } else if str_eq(string, "russian") {
            Some(Self::Russian)
        } else if str_eq(string, "japanese") {
            Some(Self::Japanese)
        } else if str_eq(string, "korean") {
            Some(Self::Korean)
        } else if str_eq(string, "simplified_chinese") {
            Some(Self::SimplifiedChinese)
        } else if str_eq(string, "traditional_chinese") {
            Some(Self::TraditionalChinese)
        } else {
            None
        }
    }
}

} // verus!
