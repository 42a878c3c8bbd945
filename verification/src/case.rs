//! Case conversion and keyword escaping, as done by the `heck` and
//! `check_keyword` crates.

use check_keyword::CheckKeyword;
use heck::ToSnekCase;
use heck::ToUpperCamelCase;
use vstd::prelude::*;

verus! {

/// What `heck` makes of a text in upper camel case.
pub uninterp spec fn upper_camel_case(s: Seq<char>) -> Seq<char>;

/// What `heck` makes of a text in snake case.
pub uninterp spec fn snake_case(s: Seq<char>) -> Seq<char>;

/// Whether `check_keyword` lists a text among the strict and reserved
/// keywords of Rust.
pub uninterp spec fn is_keyword(s: Seq<char>) -> bool;

/// A name that can stand as an identifier: a keyword gets the raw prefix,
/// anything else stays as it is.
pub open spec fn safe_name(s: Seq<char>) -> Seq<char> {
    if is_keyword(s) {
        "r#"@ + s
    } else {
        s
    }
}

/// `heck::ToUpperCamelCase::to_upper_camel_case` on `str`. The result depends
/// on the text alone; the contract gives it a name and claims nothing else.
#[verifier::external_body]
pub(crate) fn to_upper_camel_case(s: &str) -> (r: String)
    ensures
        r@ == upper_camel_case(s@),
{
    s.to_upper_camel_case()
}

/// `heck::ToSnekCase::to_snek_case` on `str`, which is `to_snake_case` under
/// another name. The result depends on the text alone; the contract gives it
/// a name and claims nothing else.
#[verifier::external_body]
pub(crate) fn to_snek_case(s: &str) -> (r: String)
    ensures
        r@ == snake_case(s@),
{
    s.to_snek_case()
}

/// `check_keyword::CheckKeyword::into_safe` on `String`: a text that
/// `is_keyword` accepts comes back with `r#` in front, any other text comes
/// back unchanged. Which texts are keywords is left to the crate's list.
#[verifier::external_body]
pub(crate) fn into_safe(s: String) -> (r: String)
    ensures
        r@ == (if is_keyword(s@) {
            "r#"@ + s@
        } else {
            s@
        }),
{
    s.into_safe()
}

} // verus!
