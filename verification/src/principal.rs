//! Identities of callers, services and the engine itself.

use vstd::prelude::*;
use candid::Principal;

verus! {

/// `candid::Principal`, the identity of a caller or a service. Nothing of
/// its inside is visible here.
#[verifier::external_type_specification]
#[verifier::external_body]
pub struct ExPrincipal(candid::Principal);

/// `Principal::clone`: a copy of every field, so the result is the same
/// value.
pub assume_specification[ <candid::Principal as Clone>::clone ](p: &candid::Principal) -> (r:
    candid::Principal)
    ensures
        r == *p,
;

/// `Principal == Principal`: the derived comparison of every field, so two
/// principals compare equal exactly when they are the same value.
#[verifier::external_body]
pub(crate) fn same_principal(a: &Principal, b: &Principal) -> (r: bool)
    ensures
        r == (*a == *b),
{
    a == b
}

/// `Principal::anonymous`: the principal of a caller without an identity.
/// Nothing is claimed of it.
#[verifier::external_body]
pub(crate) fn anonymous_principal() -> Principal {
    Principal::anonymous()
}

} // verus!
