//! The leak sentinel: a marker that must be explicitly discharged.

use vstd::prelude::*;

verus! {

/// The sentinel of the `relevant` crate: a unit struct whose drop reports a
/// leak (a panic, with the crate's `panic` feature) unless it was disposed.
#[verifier::external_type_specification]
#[verifier::external_body]
pub struct ExRelevant(relevant::Relevant);

/// Relies on `relevant::Relevant::dispose`: it consumes the marker and forgets it,
/// so the marker's drop hook never runs.
pub assume_specification[ relevant::Relevant::dispose ](r: relevant::Relevant);

/// Relies on `relevant::Relevant` being a unit struct whose only drop path
/// (other than `dispose`) reports a leak.
#[verifier::external_body]
pub(crate) fn arm() -> (r: relevant::Relevant) {
    relevant::Relevant
}

/// Retire a sentinel through its one sanctioned path.
pub(crate) fn discharge(r: relevant::Relevant) {
    r.dispose();
}

} // verus!
