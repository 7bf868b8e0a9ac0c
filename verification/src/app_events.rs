//! The events the asynchronous AI exchange reports back to the
//! application loop. The loop itself, with its channels and the HTTP
//! client, lives with the embedding application.

use vstd::prelude::*;

use crate::api::Usage;

verus! {

/// One event from an in-flight AI request.
#[derive(Debug, Clone)]
pub enum AiResponse {
    /// The exchange finished with a complete answer.
    Success { response: String, usage: Option<Usage> },
    /// The exchange failed.
    Error(String),
    /// A streamed answer began.
    StreamStart,
    /// One piece of a streamed answer.
    StreamChunk(String),
    /// A streamed answer ended.
    StreamEnd,
}

} // verus!
