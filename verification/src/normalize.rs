//! The domain normalizer: pure, total functions from the decoded
//! payload shapes to the stable domain records.
//!
//! Temperature, humidity, wind and cloud fields are copied verbatim —
//! no unit conversion and no loss of precision happens here; only
//! rendering truncates.  An absent precipitation amount stays
//! explicitly absent: it is never replaced by a zero at this layer.

use vstd::prelude::*;
use crate::model::{
    CurrentConditions, CurrentPayload, Forecast, ForecastEntry, ForecastPayload, ForecastPoint,
};

verus! {

/// What a current-conditions payload normalizes to.  The one-hour
/// rain amount is present exactly when the payload carries a rain
/// block with a one-hour accumulation.
pub open spec fn spec_to_current(p: CurrentPayload) -> CurrentConditions {
    CurrentConditions {
        city: p.name,
        temp_min: p.main.temp_min,
        temp_max: p.main.temp_max,
        feels_like: p.main.feels_like,
        humidity: p.main.humidity,
        wind_speed: p.wind.speed,
        cloud_coverage: p.clouds.all,
        rain_one_hour: match p.rain {
            Some(r) => r.one_hour,
            None => None,
        },
    }
}

/// What one forecast entry normalizes to; the three-hour rain amount
/// is present exactly when the entry carries a rain block with a
/// three-hour accumulation.
pub open spec fn spec_to_point(e: ForecastEntry) -> ForecastPoint {
    ForecastPoint {
        timestamp: e.dt_txt,
        temp_min: e.main.temp_min,
        temp_max: e.main.temp_max,
        feels_like: e.main.feels_like,
        humidity: e.main.humidity,
        wind_speed: e.wind.speed,
        cloud_coverage: e.clouds.all,
        rain_three_hour: match e.rain {
            Some(r) => r.three_hour,
            None => None,
        },
    }
}

/// What a forecast payload's point list normalizes to, in the order
/// returned upstream.
pub open spec fn spec_points(list: Seq<ForecastEntry>) -> Seq<ForecastPoint> {
    list.map_values(|e: ForecastEntry| spec_to_point(e))
}

/// Normalizes a current-conditions payload.  Total: every well-typed
/// payload yields a record, with no failure mode of its own.
pub fn to_current_conditions(p: &CurrentPayload) -> (r: CurrentConditions)
    ensures
        r == spec_to_current(*p),
{
    CurrentConditions {
        city: p.name.clone(),
        temp_min: p.main.temp_min,
        temp_max: p.main.temp_max,
        feels_like: p.main.feels_like,
        humidity: p.main.humidity,
        wind_speed: p.wind.speed,
        cloud_coverage: p.clouds.all,
        rain_one_hour: match p.rain {
            Some(r) => r.one_hour,
            None => None,
        },
    }
}

/// Normalizes one forecast entry; total, as [`to_current_conditions`].
pub fn to_forecast_point(e: &ForecastEntry) -> (r: ForecastPoint)
    ensures
        r == spec_to_point(*e),
{
    ForecastPoint {
        timestamp: e.dt_txt.clone(),
        temp_min: e.main.temp_min,
        temp_max: e.main.temp_max,
        feels_like: e.main.feels_like,
        humidity: e.main.humidity,
        wind_speed: e.wind.speed,
        cloud_coverage: e.clouds.all,
        rain_three_hour: match e.rain {
            Some(r) => r.three_hour,
            None => None,
        },
    }
}

/// Normalizes a forecast payload, keeping the upstream point order;
/// total, as [`to_current_conditions`].
pub fn to_forecast(p: &ForecastPayload) -> (r: Forecast)
    ensures
        r.points@ == spec_points(p.list@),
{
    let mut points: Vec<ForecastPoint> = Vec::new();
    let mut i: usize = 0;
    while i < p.list.len()
        invariant
            i <= p.list.len(),
            points@ == spec_points(p.list@.subrange(0, i as int)),
        decreases p.list.len() - i,
    {
        points.push(to_forecast_point(&p.list[i]));
        i = i + 1;
        proof {
            assert(points@ =~= spec_points(p.list@.subrange(0, i as int)));
        }
    }
    proof {
        assert(points@ =~= spec_points(p.list@));
    }
    Forecast { points }
}

/// Normalization is a function of the payload alone: two applications
/// to the same payload yield identical domain records.  Together with
/// the totality of the executable normalizers — they return a record
/// for every well-typed payload, with no failure path — this makes
/// repeated normalization harmless.
pub proof fn lemma_normalization_deterministic(
    p: CurrentPayload,
    q: CurrentPayload,
    fp: ForecastPayload,
    fq: ForecastPayload,
)
    requires
        p == q,
        fp == fq,
    ensures
        spec_to_current(p) == spec_to_current(q),
        spec_points(fp.list@) == spec_points(fq.list@),
{
}

} // verus!
