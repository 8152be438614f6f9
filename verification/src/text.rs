//! Operations on text that are computed outside this crate.
//!
//! Nothing here is proved: each contract is taken from the documentation and
//! source of the function that the body calls.

use vstd::prelude::*;

verus! {

/// The snake_case spelling that `inflections` gives a name.
pub uninterp spec fn snake_case(name: Seq<char>) -> Seq<char>;

/// The PascalCase spelling that `inflections` gives a name.
pub uninterp spec fn pascal_case(name: Seq<char>) -> Seq<char>;

/// The uppercase equivalent of a text, as `str::to_uppercase` defines it.
pub uninterp spec fn uppercase(text: Seq<char>) -> Seq<char>;

/// `str`'s `==`: two texts are equal exactly when they hold the same
/// characters.
#[verifier::external_body]
pub(crate) fn str_eq(a: &str, b: &str) -> (equal: bool)
    ensures
        equal == (a@ == b@),
{
    a == b
}

/// `inflections::case::to_snake_case`: the result depends on the characters
/// of `name` alone, and the function returns for every input.
#[verifier::external_body]
pub(crate) fn to_snake_case(name: &str) -> (converted: String)
    ensures
        converted@ == snake_case(name@),
{
    inflections::case::to_snake_case(name)
}

/// `inflections::case::to_pascal_case`: the result depends on the characters
/// of `name` alone, and the function returns for every input.
#[verifier::external_body]
pub(crate) fn to_pascal_case(name: &str) -> (converted: String)
    ensures
        converted@ == pascal_case(name@),
{
    inflections::case::to_pascal_case(name)
}

/// `str::to_uppercase`: the result depends on the characters of `text` alone.
#[verifier::external_body]
pub(crate) fn to_uppercase(text: &str) -> (converted: String)
    ensures
        converted@ == uppercase(text@),
{
    text.to_uppercase()
}

} // verus!
