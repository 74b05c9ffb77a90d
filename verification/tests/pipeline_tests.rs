use weather_pipeline::amount::Amount;
use weather_pipeline::errors::{Reply, Stage, WeatherError};
use weather_pipeline::fetch::FORECAST_COUNT;
use weather_pipeline::geocode::resolve;
use weather_pipeline::model::{
    CloudsInfo, Coord, CurrentPayload, ForecastEntry, ForecastPayload, Location,
    MainMeasurements, RainInfo, WindInfo,
};
use weather_pipeline::normalize::{to_current_conditions, to_forecast};
use weather_pipeline::pipeline::{step, Event, Mode, PipelineState};

fn amt(milli: i64) -> Amount {
    if milli < 0 {
        Amount { neg: true, milli: (-milli) as u64 }
    } else {
        Amount { neg: false, milli: milli as u64 }
    }
}

fn london() -> Location {
    Location {
        name: "London".to_string(),
        coord: Coord { lat_micro: 51_500_000, lon_micro: -120_000 },
        country: "GB".to_string(),
    }
}

fn main_block() -> MainMeasurements {
    MainMeasurements {
        temp: amt(12_000),
        feels_like: amt(12_000),
        temp_min: amt(10_000),
        temp_max: amt(15_000),
        pressure: 1012,
        humidity: 80,
        sea_level: None,
        grnd_level: None,
    }
}

fn current_payload(rain: Option<RainInfo>) -> CurrentPayload {
    CurrentPayload {
        name: "London".to_string(),
        main: main_block(),
        wind: WindInfo { speed: amt(5_000), deg: 180, gust: None },
        rain,
        clouds: CloudsInfo { all: 40 },
    }
}

fn forecast_entry(timestamp: &str, rain: Option<RainInfo>) -> ForecastEntry {
    ForecastEntry {
        dt_txt: timestamp.to_string(),
        main: main_block(),
        wind: WindInfo { speed: amt(5_000), deg: 180, gust: None },
        rain,
        clouds: CloudsInfo { all: 40 },
    }
}

fn geocoding_state(mode: Mode) -> PipelineState {
    step(
        PipelineState::Idle,
        Event::Submit { city: "London".to_string(), country: "GB".to_string(), mode },
    )
}

#[test]
fn resolve_returns_the_first_upstream_match() {
    let mut second = london();
    second.name = "London".to_string();
    second.coord = Coord { lat_micro: 42_983_000, lon_micro: -81_233_000 };
    let got = resolve(Reply::Payload { value: vec![london(), second] }).unwrap();
    assert_eq!(got, london());
}

#[test]
fn resolve_with_empty_match_list_is_not_found() {
    let got = resolve(Reply::Payload { value: vec![] });
    assert_eq!(got, Err(WeatherError::NotFound));
}

#[test]
fn end_to_end_current_conditions() {
    let state = geocoding_state(Mode::Current);
    assert!(matches!(state, PipelineState::Geocoding { .. }));

    let state = step(state, Event::GeoReply { reply: Reply::Payload { value: vec![london()] } });
    match &state {
        PipelineState::Fetching { location, mode } => {
            assert_eq!(*location, london());
            assert_eq!(*mode, Mode::Current);
        }
        other => panic!("expected a fetching state, got {:?}", other),
    }

    let state = step(
        state,
        Event::CurrentReply { reply: Reply::Payload { value: current_payload(None) } },
    );
    assert!(matches!(state, PipelineState::Presenting { .. }));

    let state = step(state, Event::Render);
    match state {
        PipelineState::Done { lines } => {
            assert!(lines.contains(&"Temperature: 10°C to 15°C".to_string()));
            assert!(lines.contains(&"Humidity: 80%".to_string()));
            assert!(lines.contains(&"Rain: None".to_string()));
        }
        other => panic!("expected rendered output, got {:?}", other),
    }
}

#[test]
fn end_to_end_forecast() {
    let state = geocoding_state(Mode::Forecast);
    let state = step(state, Event::GeoReply { reply: Reply::Payload { value: vec![london()] } });
    assert!(matches!(state, PipelineState::Fetching { mode: Mode::Forecast, .. }));

    let payload = ForecastPayload {
        list: vec![
            forecast_entry(
                "2024-01-01 12:00:00",
                Some(RainInfo { one_hour: None, three_hour: Some(amt(400)) }),
            ),
            forecast_entry("2024-01-01 15:00:00", None),
        ],
    };
    let state = step(state, Event::ForecastReply { reply: Reply::Payload { value: payload } });
    let state = step(state, Event::Render);
    match state {
        PipelineState::Done { lines } => {
            assert_eq!(lines.len(), 9);
            assert_eq!(lines[8], "rain 3h        | 0mm          | None         | ");
        }
        other => panic!("expected rendered output, got {:?}", other),
    }
}

#[test]
fn empty_geocode_fails_with_not_found_and_no_fetch() {
    let state = geocoding_state(Mode::Current);
    let state = step(state, Event::GeoReply { reply: Reply::Payload { value: vec![] } });
    match state {
        PipelineState::Failed { stage, error } => {
            assert_eq!(stage, Stage::Geocode);
            assert_eq!(error, WeatherError::NotFound);
        }
        other => panic!("expected a terminal failure, got {:?}", other),
    }
}

#[test]
fn geocode_http_500_reports_upstream_at_geocoding_stage() {
    let state = geocoding_state(Mode::Current);
    let state = step(state, Event::GeoReply { reply: Reply::HttpFailure { status: 500 } });
    match state {
        PipelineState::Failed { stage, error } => {
            assert_eq!(stage, Stage::Geocode);
            assert!(matches!(
                error,
                WeatherError::Upstream { stage: Stage::Geocode, status: Some(500), .. }
            ));
        }
        other => panic!("expected a terminal failure, got {:?}", other),
    }
}

#[test]
fn geocode_transport_failure_preserves_the_message() {
    let state = geocoding_state(Mode::Current);
    let state = step(
        state,
        Event::GeoReply { reply: Reply::Transport { message: "connection refused".to_string() } },
    );
    match state {
        PipelineState::Failed { stage: Stage::Geocode, error } => {
            assert_eq!(
                error,
                WeatherError::Upstream {
                    stage: Stage::Geocode,
                    status: None,
                    message: "connection refused".to_string(),
                }
            );
        }
        other => panic!("expected a terminal failure, got {:?}", other),
    }
}

#[test]
fn undecodable_weather_body_reports_decode_at_fetch_stage() {
    let state = geocoding_state(Mode::Current);
    let state = step(state, Event::GeoReply { reply: Reply::Payload { value: vec![london()] } });
    let state = step(
        state,
        Event::CurrentReply {
            reply: Reply::BodyRejected { message: "missing field".to_string() },
        },
    );
    match state {
        PipelineState::Failed { stage, error } => {
            assert_eq!(stage, Stage::Fetch);
            assert_eq!(
                error,
                WeatherError::Decode { stage: Stage::Fetch, message: "missing field".to_string() }
            );
        }
        other => panic!("expected a terminal failure, got {:?}", other),
    }
}

#[test]
fn normalization_is_repeatable_and_total() {
    // Every optional field absent at once.
    let payload = current_payload(None);
    let once = to_current_conditions(&payload);
    let twice = to_current_conditions(&payload);
    assert_eq!(once, twice);
    assert_eq!(once.rain_one_hour, None);

    let forecast_payload = ForecastPayload {
        list: vec![
            forecast_entry("2024-01-01 12:00:00", None),
            forecast_entry(
                "2024-01-01 15:00:00",
                Some(RainInfo { one_hour: None, three_hour: Some(amt(400)) }),
            ),
        ],
    };
    let once = to_forecast(&forecast_payload);
    let twice = to_forecast(&forecast_payload);
    assert_eq!(once, twice);
    assert_eq!(once.points.len(), 2);
    assert_eq!(once.points[1].rain_three_hour, Some(amt(400)));
}

#[test]
fn normalization_keeps_a_missing_rain_amount_absent() {
    // A rain block without the one-hour amount normalizes to an
    // absent amount, never to a zero.
    let payload = current_payload(Some(RainInfo { one_hour: None, three_hour: None }));
    let record = to_current_conditions(&payload);
    assert_eq!(record.rain_one_hour, None);

    let payload = current_payload(Some(RainInfo { one_hour: Some(amt(2_700)), three_hour: None }));
    let record = to_current_conditions(&payload);
    assert_eq!(record.rain_one_hour, Some(amt(2_700)));
}

#[test]
fn forecast_request_bound_is_small_and_fixed() {
    assert_eq!(FORECAST_COUNT, 5);
}
