//! The connection type of the `redis` crate.

use redis::aio::MultiplexedConnection;
use vstd::prelude::*;

verus! {

/// An open connection to the store. The library carries it from the lookup of a request
/// to the write of its response and never looks inside.
#[verifier::external_type_specification]
#[verifier::external_body]
pub struct ExMultiplexedConnection(redis::aio::MultiplexedConnection);

/// `MultiplexedConnection::clone`: another handle. Nothing is claimed of it.
pub assume_specification[ <MultiplexedConnection as Clone>::clone ](
    conn: &MultiplexedConnection,
) -> (copy: MultiplexedConnection)
;

} // verus!
