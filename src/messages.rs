use vstd::prelude::*;

verus! {

/// Asks the registry to bind a connection, under its id, to one endpoint.
pub struct RegisterConnection<H> {
    pub id: u128,
    pub endpoint: String,
    pub connection: H,
}

/// An event posted to an endpoint, carried as an opaque payload.
pub struct PublishMessage {
    pub endpoint: String,
    pub message: String,
}

/// Asks the registry to stop the runtime that hosts it.
pub struct Shutdown;

} // verus!
