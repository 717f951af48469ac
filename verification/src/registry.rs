//! The currency registry: resolving an ISO code to its decimal precision.
//!
//! The registry is an external collaborator; the library consumes it through
//! one lookup.  What a code resolves to is a fixed function of the code, so
//! the result is given a name, `iso_exponent`, and every contract that talks
//! about resolution speaks of that name.

use vstd::prelude::*;

verus! {

/// What the currency registry answers for a code: `None` when the code does
/// not resolve, otherwise the currency's decimal precision (its exponent).
pub uninterp spec fn iso_exponent(code: Seq<char>) -> Option<u32>;

/// Relies on rusty_money's `iso::find`: a fixed match over the ISO alphabetic
/// codes, so the result depends on the code alone; `exponent` on the returned
/// descriptor is the currency's decimal precision.
#[verifier::external_body]
pub(crate) fn find_exponent(code: &str) -> (r: Option<u32>)
    ensures
        r == iso_exponent(code@),
{
    rusty_money::iso::find(code).map(|c| c.exponent)
}

} // verus!
