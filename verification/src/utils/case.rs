//! Words in Pascal case.

use vstd::prelude::*;
use convert_case::{Case, Casing};

verus! {

/// `text` in Pascal case: cut into words, each word with its first letter in
/// upper case and the rest in lower case, the words put together without a
/// separator.
pub uninterp spec fn pascal_case(text: Seq<char>) -> Seq<char>;

/// Calls `Casing::to_case` of the crate convert_case with `Case::Pascal`. The
/// result is taken to be a function of the text alone, which the contract
/// names `pascal_case`. Nothing else is claimed of it.
#[verifier::external_body]
pub(crate) fn to_pascal_case(text: &str) -> (converted: String)
    ensures
        converted@ == pascal_case(text@),
{
    text.to_case(Case::Pascal)
}

/// How a truth value is written: `true` or `false`.
pub open spec fn spec_bool_text(b: bool) -> Seq<char> {
    if b {
        "true"@
    } else {
        "false"@
    }
}

/// How a truth value is written: `true` or `false`.
pub fn bool_text(b: bool) -> (text: &'static str)
    ensures
        text@ == spec_bool_text(b),
{
    if b {
        "true"
    } else {
        "false"
    }
}

} // verus!
