//! Naming-convention transforms used to derive generated identifiers.
//!
//! The snake-case and pascal-case conversions come from the Inflector crate;
//! their results are functions of the input text alone, so they are given
//! names that the generator's contracts can speak of.

use vstd::prelude::*;
use inflector::Inflector;

verus! {

pub uninterp spec fn snake_of(s: Seq<char>) -> Seq<char>;

pub uninterp spec fn pascal_of(s: Seq<char>) -> Seq<char>;

/// Relies on Inflector's to_snake_case: the lower-snake-case form of `s`,
/// a function of the characters of `s` alone.
#[verifier::external_body]
pub fn to_snake_case(s: &str) -> (r: String)
    ensures
        r@ == snake_of(s@),
{
    Inflector::to_snake_case(s)
}

/// Relies on Inflector's to_pascal_case: the upper-camel-case form of `s`,
/// a function of the characters of `s` alone.
#[verifier::external_body]
pub fn to_pascal_case(s: &str) -> (r: String)
    ensures
        r@ == pascal_of(s@),
{
    Inflector::to_pascal_case(s)
}

} // verus!
