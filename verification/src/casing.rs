//! Case conversion of names, done by the `convert_case` crate.

use vstd::prelude::*;
use convert_case::Casing;

verus! {

/// The cases that names are written in.
#[derive(Clone, Copy, Debug, PartialEq, Eq, Structural)]
pub enum CaseStyle {
    /// Lower-case words joined by underscores.
    Snake,
    /// Capitalised words joined by nothing.
    Pascal,
    /// Lower-case words joined by spaces.
    Lower,
}

/// The text that `convert_case` makes of `text` in the given case.
pub uninterp spec fn cased(text: Seq<char>, style: CaseStyle) -> Seq<char>;

/// Calls `convert_case::Casing::to_case` on `text`, with the case of that crate
/// that `style` names. The crate splits the text into words at its default
/// boundaries, rewrites each word and joins them; the result depends on the
/// text and the case alone, and the conversion does not fail. Nothing else is
/// claimed of the result.
#[verifier::external_body]
pub(crate) fn to_case(text: &str, style: CaseStyle) -> (r: String)
    ensures
        r@ == cased(text@, style),
{
    let case = match style {
        CaseStyle::Snake => convert_case::Case::Snake,
        CaseStyle::Pascal => convert_case::Case::Pascal,
        CaseStyle::Lower => convert_case::Case::Lower,
    };
    text.to_case(case)
}

} // verus!
