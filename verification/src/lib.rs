//! Client-side core of a streaming-radio authorization protocol: the
//! two-step handshake with partial-key derivation, identifier validation,
//! the station-catalog document parser, and playlist-URL composition.

pub mod auth;
pub mod catalog;
pub mod errors;
pub mod headers;
pub mod keys;
pub mod player;
pub mod response;
pub mod timefmt;
pub mod validate;

use vstd::prelude::*;

verus! {

/// Tests whether an HTTP status code counts as success (2xx).
pub open spec fn spec_is_success_status(status: u16) -> bool {
    200 <= status < 300
}

/// Exec form of the 2xx test used by the handshake and by callers
/// that judge a response before handing it to the library.
pub fn is_success_status(status: u16) -> (r: bool)
    ensures
        r == spec_is_success_status(status),
{
    200 <= status && status < 300
}

} // verus!
