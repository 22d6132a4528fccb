//! Retrieval of remote content into the working directory.

use vstd::prelude::*;

pub mod http;

verus! {

/// Name of the fetched raw artifact inside the working directory.
pub const FETCHED_CONTENT_FILENAME: &'static str = "raw";

/// Why fetching failed. Transport problems and unsuccessful responses are
/// kept apart.
#[derive(Clone, Debug)]
pub enum FetchError {
    /// The request could not be made or completed; holds the cause.
    Transport(String),
    /// The server answered with a status outside 200..=299.
    Status(u16),
    /// The response body could not be read; holds the cause.
    Body(String),
    /// The headless browser failed; holds the cause.
    Browser(String),
}

} // verus!
