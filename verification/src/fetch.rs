//! The weather fetcher's decision: whether a retrieval reply
//! delivered a usable payload, and which failure it reports
//! otherwise.  The transport work itself happens outside the crate;
//! these functions judge its outcome.

use vstd::prelude::*;
use crate::errors::{fail_of, fails_with, Reply, Stage, WeatherError};
use crate::model::{CurrentPayload, ForecastPayload};

verus! {

/// How many forecast points one forecast request asks for: a small
/// fixed bound chosen by the orchestrator, not user-configurable.
pub const FORECAST_COUNT: u32 = 5;

/// Accepts a current-conditions reply: a delivered payload is
/// returned whole; anything else maps to `Upstream` or `Decode` per
/// [`fails_with`].
pub fn accept_current(reply: Reply<CurrentPayload>) -> (r: Result<
    CurrentPayload,
    WeatherError,
>)
    ensures
        match reply {
            Reply::Payload { value } => r matches Ok(p) && p == value,
            _ => r matches Err(e) && fails_with(Stage::Fetch, reply, e),
        },
{
    match reply {
        Reply::Payload { value } => Ok(value),
        other => Err(fail_of(Stage::Fetch, other)),
    }
}

/// Accepts a forecast reply; see [`accept_current`].
pub fn accept_forecast(reply: Reply<ForecastPayload>) -> (r: Result<
    ForecastPayload,
    WeatherError,
>)
    ensures
        match reply {
            Reply::Payload { value } => r matches Ok(p) && p == value,
            _ => r matches Err(e) && fails_with(Stage::Fetch, reply, e),
        },
{
    match reply {
        Reply::Payload { value } => Ok(value),
        other => Err(fail_of(Stage::Fetch, other)),
    }
}

} // verus!
