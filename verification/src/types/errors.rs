//! Errors reported by the client.

use vstd::prelude::*;

verus! {

/// An error from a request to the API.
#[derive(Debug, Clone, PartialEq)]
pub enum AnthropicError {
    /// The request could not be made or its response could not be read.
    Connection { message: String },
    /// The server answered with a status outside 200-299.
    Status { status: u16, message: String },
}

} // verus!
