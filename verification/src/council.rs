//! The decision side of the dependency-coordination client: whether the loop
//! that awaits the coordinator's replies goes on, and how a fetched reply is
//! classified. The subscription and the wire format live outside the
//! library.

use vstd::prelude::*;

verus! {

/// Whether the processing loop around the coordination client goes on or
/// shuts down.
#[derive(Clone, Copy, PartialEq, Eq, Structural, Debug)]
pub enum State {
    Continue,
    Shutdown,
}

/// What one fetch from the reply subscription yielded.
#[derive(Clone, Copy, PartialEq, Eq, Structural, Debug)]
pub enum FetchedReply {
    /// The subscription ended or the connection closed: no further replies.
    StreamClosed,
    /// A reply arrived with an empty payload: no listener was available for
    /// the message that was just sent.
    NoListenerAvailable,
    /// A reply arrived with a payload to decode.
    Payload,
}

/// Classifies one fetched reply by its payload, as the client's fetch loop
/// does: a closed stream ends the conversation without error, an empty
/// payload is the no-listener error, and anything else is handed on for
/// decoding.
pub fn classify_fetched_reply(payload: &Option<Vec<u8>>) -> (r: FetchedReply)
    ensures
        payload is None ==> r == FetchedReply::StreamClosed,
        (payload matches Some(p) && p@.len() == 0) ==> r == FetchedReply::NoListenerAvailable,
        (payload matches Some(p) && p@.len() > 0) ==> r == FetchedReply::Payload,
{
    match payload {
        None => FetchedReply::StreamClosed,
        Some(p) => {
            if p.len() == 0 {
                FetchedReply::NoListenerAvailable
            } else {
                FetchedReply::Payload
            }
        }
    }
}

} // verus!
