//! The two languages of the admin pages.
use vstd::prelude::*;

verus! {

/// Page language.
#[derive(Clone, Copy, PartialEq, Eq, Structural, Debug)]
pub enum Locale {
    En,
    Ru,
}

/// The text for `lang`.
pub open spec fn in_language<'a>(lang: Locale, en: &'a str, ru: &'a str) -> &'a str {
    match lang {
        Locale::En => en,
        Locale::Ru => ru,
    }
}

/// Pick the text for `lang`.
pub fn tr<'a>(lang: Locale, en: &'a str, ru: &'a str) -> (r: &'a str)
    ensures
        r == in_language(lang, en, ru),
{
    match lang {
        Locale::En => en,
        Locale::Ru => ru,
    }
}

} // verus!
