//! The closed set of language selectors accepted by the profile API, and the
//! wire code each one stands for.

use vstd::prelude::*;

verus! {

/// A language selector for the profile API: one of a fixed closed set of
/// codes, each with its own wire value.
#[derive(Clone, Copy, PartialEq, Eq, Structural, Debug)]
pub enum Language {
    /// Traditional Chinese
    CHT,
    /// Simplified Chinese
    CHS,
    /// German
    DE,
    /// English
    EN,
    /// Spanish
    ES,
    /// French
    FR,
    /// Indonesian
    ID,
    /// Japanese
    JP,
    /// Korean
    KR,
    /// Portuguese
    PT,
    /// Russian
    RU,
    /// Thai
    TH,
    /// Vietnamese
    VI,
}

/// The wire code of a language selector, as the sequence of characters that
/// stands in the request URL.
pub open spec fn spec_lang_code(l: Language) -> Seq<char> {
    match l {
        Language::CHT => "cht"@,
        Language::CHS => "cn"@,
        Language::DE => "de"@,
        Language::EN => "en"@,
        Language::ES => "es"@,
        Language::FR => "fr"@,
        Language::ID => "id"@,
        Language::JP => "jp"@,
        Language::KR => "kr"@,
        Language::PT => "pt"@,
        Language::RU => "ru"@,
        Language::TH => "th"@,
        Language::VI => "vi"@,
    }
}

impl Language {
    /// The wire value of this language selector.
    pub fn value(&self) -> (r: &'static str)
        ensures
            r@ == spec_lang_code(*self),
    {
        match self {
            Language::CHT => "cht",
            Language::CHS => "cn",
            Language::DE => "de",
            Language::EN => "en",
            Language::ES => "es",
            Language::FR => "fr",
            Language::ID => "id",
            Language::JP => "jp",
            Language::KR => "kr",
            Language::PT => "pt",
            Language::RU => "ru",
            Language::TH => "th",
            Language::VI => "vi",
        }
    }
}

} // verus!
