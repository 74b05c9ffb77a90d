//! The pipeline's failure taxonomy and the shape of a transport
//! reply.
//!
//! Every remote call ends in exactly one of four ways: the request
//! could not be completed, it completed with a non-success status,
//! its body did not decode, or it delivered a payload.  The first
//! three map to distinct error kinds so a caller can tell a server
//! problem from a contract mismatch.

use vstd::prelude::*;

verus! {

/// The pipeline stage at which a failure arose.
#[derive(Clone, Copy, PartialEq, Eq, Structural, Debug)]
pub enum Stage {
    /// Resolving the city and country to a coordinate.
    Geocode,
    /// Retrieving the current-conditions or forecast payload.
    Fetch,
}

/// One reported failure.  No stage swallows an error: the first
/// failure is surfaced verbatim with its stage and kind.
#[derive(PartialEq, Eq, Debug)]
pub enum WeatherError {
    /// The geocode query matched zero locations; terminal, never
    /// retried.
    NotFound,
    /// The request could not be completed, or returned a non-success
    /// status; the status is preserved where one was received.
    Upstream { stage: Stage, status: Option<u16>, message: String },
    /// The request succeeded but the body did not match the expected
    /// shape.
    Decode { stage: Stage, message: String },
    /// The menu selection did not parse as a number.
    Input,
}

/// How one remote request ended, as reported by the transport layer:
/// `Payload` carries a decoded body of a success response; the other
/// variants carry what went wrong.
#[derive(Debug)]
pub enum Reply<T> {
    /// The request could not be completed at all.
    Transport { message: String },
    /// The request completed with a non-success HTTP status.
    HttpFailure { status: u16 },
    /// A success status whose body did not decode as `T`.
    BodyRejected { message: String },
    /// A success status with a decoded body.
    Payload { value: T },
}

/// The error that a failed reply at `stage` maps to: a transport
/// failure or bad status becomes `Upstream` with the status where one
/// was received, an undecodable body becomes `Decode`.  A delivered
/// payload maps to no error.
pub open spec fn fails_with<T>(stage: Stage, reply: Reply<T>, e: WeatherError) -> bool {
    match reply {
        Reply::Transport { message } => e == (WeatherError::Upstream {
            stage,
            status: None,
            message,
        }),
        Reply::HttpFailure { status } => e matches WeatherError::Upstream {
            stage: s,
            status: st,
            message: m,
        } && s == stage && st == Some(status) && m@ == Seq::<char>::empty(),
        Reply::BodyRejected { message } => e == (WeatherError::Decode { stage, message }),
        Reply::Payload { .. } => false,
    }
}

/// Maps a failed reply to its error, per [`fails_with`].
pub fn fail_of<T>(stage: Stage, reply: Reply<T>) -> (e: WeatherError)
    requires
        !(reply matches Reply::Payload { .. }),
    ensures
        fails_with(stage, reply, e),
{
    match reply {
        Reply::Transport { message } => WeatherError::Upstream { stage, status: None, message },
        Reply::HttpFailure { status } => WeatherError::Upstream {
            stage,
            status: Some(status),
            message: String::new(),
        },
        Reply::BodyRejected { message } => WeatherError::Decode { stage, message },
        Reply::Payload { value: _ } => unreached(),
    }
}

} // verus!
