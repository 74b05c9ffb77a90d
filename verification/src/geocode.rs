//! The geocoder's decision: which location a lookup reply resolves
//! to, and which failure it reports otherwise.

use vstd::prelude::*;
use crate::errors::{fail_of, fails_with, Reply, Stage, WeatherError};
use crate::model::Location;

verus! {

/// Resolves a geocode reply to a single location.
///
/// A delivered match list resolves to its first element — ties among
/// equally named places are settled by upstream ordering, with no
/// local tie-break — and an empty list is the terminal
/// `NotFound` condition.  A failed request maps to `Upstream` or
/// `Decode` per [`fails_with`].
pub fn resolve(reply: Reply<Vec<Location>>) -> (r: Result<Location, WeatherError>)
    ensures
        match reply {
            Reply::Payload { value } => {
                if value@.len() > 0 {
                    r matches Ok(loc) && loc == value@[0]
                } else {
                    r == Err::<Location, WeatherError>(WeatherError::NotFound)
                }
            },
            _ => r matches Err(e) && fails_with(Stage::Geocode, reply, e),
        },
{
    match reply {
        Reply::Payload { value } => {
            let mut matches_list = value;
            if matches_list.len() == 0 {
                Err(WeatherError::NotFound)
            } else {
                Ok(matches_list.remove(0))
            }
        },
        other => Err(fail_of(Stage::Geocode, other)),
    }
}

} // verus!
