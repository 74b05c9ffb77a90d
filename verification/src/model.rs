//! The pipeline's data model: coordinates and locations produced by
//! geocoding, the typed shapes of the two upstream weather payloads,
//! and the normalized domain records that rendering consumes.
//!
//! Optional upstream fields are held as explicit `Option` values; a
//! missing field is never stood in for by a zero.

use vstd::prelude::*;
use crate::amount::Amount;

verus! {

/// A coordinate pair in millionths of a degree, which is finer than
/// the geocoding source reports.
#[derive(Clone, Copy, PartialEq, Eq, Structural, Debug)]
pub struct Coord {
    /// Latitude in millionths of a degree.
    pub lat_micro: i64,
    /// Longitude in millionths of a degree.
    pub lon_micro: i64,
}

/// A resolved place: the display name, coordinate pair, and country
/// code of one geocoding match.
#[derive(PartialEq, Eq, Debug)]
pub struct Location {
    pub name: String,
    pub coord: Coord,
    pub country: String,
}

/// The shared measurement block of both weather payloads.  The
/// sea-level and ground-level pressures are not always reported and
/// stay absent when missing.
#[derive(Clone, Copy, PartialEq, Eq, Structural, Debug)]
pub struct MainMeasurements {
    pub temp: Amount,
    pub feels_like: Amount,
    pub temp_min: Amount,
    pub temp_max: Amount,
    pub pressure: u32,
    pub humidity: u32,
    pub sea_level: Option<u32>,
    pub grnd_level: Option<u32>,
}

/// The wind block; gusts are not always reported.
#[derive(Clone, Copy, PartialEq, Eq, Structural, Debug)]
pub struct WindInfo {
    pub speed: Amount,
    pub deg: u32,
    pub gust: Option<Amount>,
}

/// The precipitation block: a one-hour accumulation on the
/// current-conditions payload, a three-hour accumulation on forecast
/// points.  The two are distinct fields and are never conflated.
#[derive(Clone, Copy, PartialEq, Eq, Structural, Debug)]
pub struct RainInfo {
    pub one_hour: Option<Amount>,
    pub three_hour: Option<Amount>,
}

/// The cloud block: coverage percent.
#[derive(Clone, Copy, PartialEq, Eq, Structural, Debug)]
pub struct CloudsInfo {
    pub all: u32,
}

/// The decoded body of a current-weather response, reduced to the
/// fields the pipeline reads.
#[derive(PartialEq, Eq, Debug)]
pub struct CurrentPayload {
    /// The reporting station's city name.
    pub name: String,
    pub main: MainMeasurements,
    pub wind: WindInfo,
    pub rain: Option<RainInfo>,
    pub clouds: CloudsInfo,
}

/// One decoded forecast point.
#[derive(PartialEq, Eq, Debug)]
pub struct ForecastEntry {
    /// The formatted timestamp, date text then time text.
    pub dt_txt: String,
    pub main: MainMeasurements,
    pub wind: WindInfo,
    pub rain: Option<RainInfo>,
    pub clouds: CloudsInfo,
}

/// The decoded body of a forecast response: the ordered point list,
/// chronological as returned upstream.
#[derive(PartialEq, Eq, Debug)]
pub struct ForecastPayload {
    pub list: Vec<ForecastEntry>,
}

/// The normalized current-conditions record.
#[derive(PartialEq, Eq, Debug)]
pub struct CurrentConditions {
    pub city: String,
    pub temp_min: Amount,
    pub temp_max: Amount,
    pub feels_like: Amount,
    pub humidity: u32,
    pub wind_speed: Amount,
    pub cloud_coverage: u32,
    /// Rain in the last hour; absent renders as `"None"`.
    pub rain_one_hour: Option<Amount>,
}

/// One normalized forecast point.
#[derive(PartialEq, Eq, Debug)]
pub struct ForecastPoint {
    /// The formatted timestamp, date text then time text.
    pub timestamp: String,
    pub temp_min: Amount,
    pub temp_max: Amount,
    pub feels_like: Amount,
    pub humidity: u32,
    pub wind_speed: Amount,
    pub cloud_coverage: u32,
    /// Rain over the next three hours; absent renders as `"None"`.
    pub rain_three_hour: Option<Amount>,
}

/// A normalized forecast: points in insertion order, which is the
/// chronological order returned upstream; no reordering is performed.
#[derive(PartialEq, Eq, Debug)]
pub struct Forecast {
    pub points: Vec<ForecastPoint>,
}

} // verus!
