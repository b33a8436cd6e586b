use vstd::prelude::*;

verus! {

/// What an operation can fail with: the transport failed, the response body
/// did not have the expected shape, or the device answered with a
/// non-success HTTP status (kept in the error).
#[derive(Debug, Clone)]
pub enum NanoLeafError {
    Transport(String),
    Decode,
    Device(u16),
}

} // verus!
