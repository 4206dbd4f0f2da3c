//! The one type of another crate that values of this library carry.

use vstd::prelude::*;

verus! {

/// `anyhow::Error`, carried through unread: what a notifier, a range validator or the kernel
/// reported about a failure. Nothing is claimed of it.
#[verifier::external_type_specification]
#[verifier::external_body]
pub struct ExAnyhowError(anyhow::Error);

} // verus!
