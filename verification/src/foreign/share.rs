//! Shared ownership of the standard library.

use std::sync::Arc;

use vstd::prelude::*;

verus! {

/// Calls `Arc::clone`: another pointer to the same value.
#[verifier::external_body]
pub(crate) fn share<T>(value: &Arc<T>) -> (other: Arc<T>)
    ensures
        other == *value,
{
    Arc::clone(value)
}

} // verus!
