//! The closed set of failure categories surfaced to the caller.

use vstd::prelude::*;

verus! {

/// Everything that can go wrong in one operation against the remote service.
#[derive(Debug)]
pub enum Error {
    /// The underlying network call could not complete.
    Network { message: String },
    /// A response body could not be parsed; `reason` distinguishes a payload
    /// decode failure (`"data"`) from a metadata decode failure (`"meta"`).
    Json { reason: String },
    /// The service answered with a non-2xx status, carrying its numeric code
    /// and the service-provided message.
    General { code: u16, message: String },
}

} // verus!
