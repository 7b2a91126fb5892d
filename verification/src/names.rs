//! Method-name derivation: container-typed fields get a singular method
//! name derived from the (assumed plural) field name by the external
//! inflection service; every other field keeps its own name.

use vstd::prelude::*;

verus! {

/// The singular form of an identifier, as the inflection service derives
/// it. What exactly it returns is the service's own affair; the pipeline
/// only relies on the result being a function of the characters alone.
pub uninterp spec fn singular_of(s: Seq<char>) -> Seq<char>;

/// Relies on inflector's `to_singular`: it derives the singular form of a
/// word by a fixed table of special cases and suffix rules, so the result
/// depends on the characters of the argument alone.
#[verifier::external_body]
pub(crate) fn singularize(s: &String) -> (r: String)
    ensures
        r@ == singular_of(s@),
{
    inflector::string::singularize::to_singular(s.as_str())
}

} // verus!
