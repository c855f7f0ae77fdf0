//! What the component hands the host: emitted events and the exported operations.
use vstd::prelude::*;

verus! {

/// An event as the host receives it: an identifier and the JSON of a domain event.
#[derive(Debug)]
pub struct Event {
    pub id: String,
    pub content: Vec<u8>,
}

/// The operations the component exports: commands that emit events, and queries.
pub trait Guest {
    /// Runs a JSON command; the error is a JSON string.
    fn execute(cmd: Vec<u8>) -> Result<Vec<Event>, Vec<u8>>;

    /// Answers a JSON query; the error is a JSON string.
    fn query(req: Vec<u8>) -> Result<Vec<u8>, Vec<u8>>;
}

} // verus!
