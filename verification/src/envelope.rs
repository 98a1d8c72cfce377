//! The envelope in which the endpoints that answer in JSON send what was
//! asked for.

use vstd::prelude::*;

verus! {

/// A successful answer: its status, the mark of success, and what was asked
/// for.
#[derive(Debug)]
pub struct Envelope<T> {
    pub status: u16,
    pub success: bool,
    pub payload: T,
}

impl<T> Envelope<T> {
    /// The envelope around `payload`: status 200, success.
    pub fn ok(payload: T) -> (envelope: Envelope<T>)
        ensures
            envelope.status == 200,
            envelope.success,
            envelope.payload == payload,
    {
        Envelope { status: 200, success: true, payload }
    }
}

} // verus!
