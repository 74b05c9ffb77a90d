//! The pipeline orchestrator: a sequential state machine that
//! sequences geocode, fetch, normalize and present, and maps the
//! first failure of any stage to a terminal `Failed` state.
//!
//! The machine holds no transport: the caller performs the remote
//! request that the current state calls for and feeds the outcome
//! back as an event.  Each invocation is single-shot — a failure is
//! terminal and nothing is retried.

use vstd::prelude::*;
use crate::errors::{fails_with, Reply, Stage, WeatherError};
use crate::fetch::{accept_current, accept_forecast};
use crate::geocode::resolve;
use crate::model::{CurrentConditions, CurrentPayload, Forecast, ForecastPayload, Location};
use crate::normalize::{spec_points, spec_to_current, to_current_conditions, to_forecast};
use crate::present::{build_forecast_table, current_lines_spec, forecast_table_spec, render_current};

verus! {

/// Which payload the pipeline is after.
#[derive(Clone, Copy, PartialEq, Eq, Structural, Debug)]
pub enum Mode {
    /// The multi-point forecast table.
    Forecast,
    /// The current-conditions report.
    Current,
}

/// A normalized record ready for rendering.
#[derive(Debug)]
pub enum WeatherRecord {
    Current(CurrentConditions),
    Forecast(Forecast),
}

/// The orchestrator's state.  The state names the one thing the
/// caller must do next: request a geocode, request a fetch, render,
/// display the output, or report the failure.
#[derive(Debug)]
pub enum PipelineState {
    /// Waiting for a submission.
    Idle,
    /// A geocode lookup for `city`, `country` is owed.
    Geocoding { city: String, country: String, mode: Mode },
    /// A weather fetch at the resolved location is owed.
    Fetching { location: Location, mode: Mode },
    /// A normalized record awaits rendering.
    Presenting { record: WeatherRecord },
    /// The rendered output, ready to display.
    Done { lines: Vec<String> },
    /// Terminal failure: the originating stage and error, surfaced
    /// verbatim; no partial output is ever produced here.
    Failed { stage: Stage, error: WeatherError },
}

/// What drives the machine forward: the submission, the outcome of
/// each remote request, or the render tick.
#[derive(Debug)]
pub enum Event {
    /// A query: city, country and mode.
    Submit { city: String, country: String, mode: Mode },
    /// The outcome of the geocode lookup.
    GeoReply { reply: Reply<Vec<Location>> },
    /// The outcome of the current-conditions fetch.
    CurrentReply { reply: Reply<CurrentPayload> },
    /// The outcome of the forecast fetch.
    ForecastReply { reply: Reply<ForecastPayload> },
    /// The render tick; rendering is total and always succeeds.
    Render,
}

/// Which events a state accepts.  `Done` and `Failed` are terminal
/// and accept none.
pub open spec fn step_enabled(s: PipelineState, e: Event) -> bool {
    match (s, e) {
        (PipelineState::Idle, Event::Submit { .. }) => true,
        (PipelineState::Geocoding { .. }, Event::GeoReply { .. }) => true,
        (PipelineState::Fetching { location: _, mode }, Event::CurrentReply { .. }) => mode
            == Mode::Current,
        (PipelineState::Fetching { location: _, mode }, Event::ForecastReply { .. }) => mode
            == Mode::Forecast,
        (PipelineState::Presenting { .. }, Event::Render) => true,
        _ => false,
    }
}

/// What a record renders to.
pub open spec fn render_spec(record: WeatherRecord) -> Seq<Seq<char>> {
    match record {
        WeatherRecord::Current(c) => current_lines_spec(c),
        WeatherRecord::Forecast(f) => forecast_table_spec(f.points@),
    }
}

/// The transition relation of the orchestrator.
///
/// A submission starts geocoding; a geocode reply either resolves to
/// the first upstream match and moves to `Fetching`, or fails —
/// `NotFound` on an empty match list, `Upstream` or `Decode`
/// otherwise.  A fetch reply either normalizes inline and moves to
/// `Presenting`, or fails likewise.  Rendering is total:
/// `Presenting` always moves to `Done` with the record's rendering.
pub open spec fn step_rel(s: PipelineState, e: Event, r: PipelineState) -> bool {
    match (s, e) {
        (PipelineState::Idle, Event::Submit { city, country, mode }) => r
            == (PipelineState::Geocoding { city, country, mode }),
        (PipelineState::Geocoding { city, country, mode }, Event::GeoReply { reply }) => match reply {
            Reply::Payload { value } => {
                if value@.len() > 0 {
                    r == (PipelineState::Fetching { location: value@[0], mode })
                } else {
                    r == (PipelineState::Failed {
                        stage: Stage::Geocode,
                        error: WeatherError::NotFound,
                    })
                }
            },
            _ => r matches PipelineState::Failed { stage, error } && stage == Stage::Geocode
                && fails_with(Stage::Geocode, reply, error),
        },
        (PipelineState::Fetching { location, mode: Mode::Current }, Event::CurrentReply {
            reply,
        }) => match reply {
            Reply::Payload { value } => r == (PipelineState::Presenting {
                record: WeatherRecord::Current(spec_to_current(value)),
            }),
            _ => r matches PipelineState::Failed { stage, error } && stage == Stage::Fetch
                && fails_with(Stage::Fetch, reply, error),
        },
        (PipelineState::Fetching { location, mode: Mode::Forecast }, Event::ForecastReply {
            reply,
        }) => match reply {
            Reply::Payload { value } => r matches PipelineState::Presenting { record }
                && record matches WeatherRecord::Forecast(f) && f.points@ == spec_points(
                value.list@,
            ),
            _ => r matches PipelineState::Failed { stage, error } && stage == Stage::Fetch
                && fails_with(Stage::Fetch, reply, error),
        },
        (PipelineState::Presenting { record }, Event::Render) => r matches PipelineState::Done {
            lines,
        } && lines.deep_view() == render_spec(record),
        _ => false,
    }
}

/// Advances the machine by one transition, per [`step_rel`].
pub fn step(state: PipelineState, event: Event) -> (r: PipelineState)
    requires
        step_enabled(state, event),
    ensures
        step_rel(state, event, r),
{
    match (state, event) {
        (PipelineState::Idle, Event::Submit { city, country, mode }) => PipelineState::Geocoding {
            city,
            country,
            mode,
        },
        (
            PipelineState::Geocoding { city: _, country: _, mode },
            Event::GeoReply { reply },
        ) => match resolve(reply) {
            Ok(location) => PipelineState::Fetching { location, mode },
            Err(error) => PipelineState::Failed { stage: Stage::Geocode, error },
        },
        (
            PipelineState::Fetching { location: _, mode: Mode::Current },
            Event::CurrentReply { reply },
        ) => match accept_current(reply) {
            Ok(payload) => PipelineState::Presenting {
                record: WeatherRecord::Current(to_current_conditions(&payload)),
            },
            Err(error) => PipelineState::Failed { stage: Stage::Fetch, error },
        },
        (
            PipelineState::Fetching { location: _, mode: Mode::Forecast },
            Event::ForecastReply { reply },
        ) => match accept_forecast(reply) {
            Ok(payload) => PipelineState::Presenting {
                record: WeatherRecord::Forecast(to_forecast(&payload)),
            },
            Err(error) => PipelineState::Failed { stage: Stage::Fetch, error },
        },
        (PipelineState::Presenting { record }, Event::Render) => match record {
            WeatherRecord::Current(c) => PipelineState::Done { lines: render_current(&c) },
            WeatherRecord::Forecast(f) => PipelineState::Done { lines: build_forecast_table(&f) },
        },
        _ => unreached(),
    }
}

/// A geocode reply with at least one match resolves to the first
/// element of the upstream match list — location and coordinate are
/// taken from that element alone — and the pipeline proceeds to the
/// fetch in the submitted mode.
pub proof fn lemma_geocode_first_match(
    city: String,
    country: String,
    mode: Mode,
    matches_list: Vec<Location>,
    r: PipelineState,
)
    requires
        matches_list@.len() > 0,
        step_rel(
            PipelineState::Geocoding { city, country, mode },
            Event::GeoReply { reply: Reply::Payload { value: matches_list } },
            r,
        ),
    ensures
        r matches PipelineState::Fetching { location, mode: m } && location == matches_list@[0]
            && m == mode,
{
}

/// An empty geocode match list is terminal: the pipeline fails with
/// `NotFound` at the geocoding stage, never reaches a `Fetching`
/// state, and accepts no further event — so no fetch is ever
/// attempted.
pub proof fn lemma_empty_geocode_is_terminal(
    city: String,
    country: String,
    mode: Mode,
    matches_list: Vec<Location>,
    r: PipelineState,
)
    requires
        matches_list@.len() == 0,
        step_rel(
            PipelineState::Geocoding { city, country, mode },
            Event::GeoReply { reply: Reply::Payload { value: matches_list } },
            r,
        ),
    ensures
        r == (PipelineState::Failed { stage: Stage::Geocode, error: WeatherError::NotFound }),
        !(r matches PipelineState::Fetching { .. }),
        forall|e: Event| !step_enabled(r, e),
{
}

/// A geocode request that ends in a non-success HTTP status is
/// terminal: the pipeline fails with `Upstream` naming the geocoding
/// stage and preserving the status, never reaches a `Fetching`
/// state, and accepts no further event — so no fetch is ever issued.
pub proof fn lemma_geocode_http_failure_is_terminal(
    city: String,
    country: String,
    mode: Mode,
    status: u16,
    r: PipelineState,
)
    requires
        step_rel(
            PipelineState::Geocoding { city, country, mode },
            Event::GeoReply { reply: Reply::HttpFailure { status } },
            r,
        ),
    ensures
        r matches PipelineState::Failed { stage, error } && stage == Stage::Geocode && (
        error matches WeatherError::Upstream { stage: es, status: est, message: _ } && es
            == Stage::Geocode && est == Some(status)),
        !(r matches PipelineState::Fetching { .. }),
        forall|e: Event| !step_enabled(r, e),
{
}

} // verus!
