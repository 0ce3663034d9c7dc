use crate::config::CaseStyle;
use convert_case::Casing;
use vstd::prelude::*;

verus! {

/// The word cases that convert_case is asked for.
#[derive(Clone, Copy, Debug, PartialEq, Eq, Structural)]
pub enum WordCase {
    Camel,
    Kebab,
    Pascal,
    Snake,
}

/// What convert_case makes of `title` in the word case `case`.
pub uninterp spec fn cased(title: Seq<char>, case: WordCase) -> Seq<char>;

/// Relies on convert_case's `Casing::to_case`: the title split into words and
/// rejoined in the given case; the result depends on the title and the case
/// alone.
#[verifier::external_body]
fn to_case(title: &str, case: WordCase) -> (r: String)
    ensures
        r@ == cased(title@, case),
{
    let target = match case {
        WordCase::Camel => convert_case::Case::Camel,
        WordCase::Kebab => convert_case::Case::Kebab,
        WordCase::Pascal => convert_case::Case::Pascal,
        WordCase::Snake => convert_case::Case::Snake,
    };
    title.to_case(target)
}

/// The word case that a case style asks for; `None` keeps the title as it is.
pub open spec fn word_case_of(style: Option<CaseStyle>) -> Option<WordCase> {
    match style {
        Some(CaseStyle::Camel) => Some(WordCase::Camel),
        Some(CaseStyle::Kebab) => Some(WordCase::Kebab),
        Some(CaseStyle::Pascal) => Some(WordCase::Pascal),
        Some(CaseStyle::Snake) => Some(WordCase::Snake),
        _ => None,
    }
}

/// Recases a note title in the configured style; with no style, or the
/// `Original` style, the title is kept as it is.
pub fn convert_case(note_title: String, style: Option<CaseStyle>) -> (r: String)
    ensures
        r@ == match word_case_of(style) {
            Some(case) => cased(note_title@, case),
            None => note_title@,
        },
{
    match style {
        Some(CaseStyle::Camel) => to_case(note_title.as_str(), WordCase::Camel),
        Some(CaseStyle::Kebab) => to_case(note_title.as_str(), WordCase::Kebab),
        Some(CaseStyle::Pascal) => to_case(note_title.as_str(), WordCase::Pascal),
        Some(CaseStyle::Snake) => to_case(note_title.as_str(), WordCase::Snake),
        _ => note_title,
    }
}

} // verus!
