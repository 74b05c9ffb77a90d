use weather_pipeline::amount::Amount;
use weather_pipeline::model::{CurrentConditions, Forecast, ForecastPoint};
use weather_pipeline::present::{build_forecast_table, render_current, trunc_string};
use weather_pipeline::text::{pad_string_with_char, signed_to_string, u64_to_string};

fn amt(milli: i64) -> Amount {
    if milli < 0 {
        Amount { neg: true, milli: (-milli) as u64 }
    } else {
        Amount { neg: false, milli: milli as u64 }
    }
}

fn conditions(rain: Option<Amount>) -> CurrentConditions {
    CurrentConditions {
        city: "London".to_string(),
        temp_min: amt(10_000),
        temp_max: amt(15_000),
        feels_like: amt(12_000),
        humidity: 80,
        wind_speed: amt(5_000),
        cloud_coverage: 40,
        rain_one_hour: rain,
    }
}

fn point(timestamp: &str, rain: Option<Amount>) -> ForecastPoint {
    ForecastPoint {
        timestamp: timestamp.to_string(),
        temp_min: amt(10_000),
        temp_max: amt(15_000),
        feels_like: amt(12_000),
        humidity: 80,
        wind_speed: amt(5_000),
        cloud_coverage: 40,
        rain_three_hour: rain,
    }
}

#[test]
fn current_rain_absent_renders_exact_none_line() {
    let lines = render_current(&conditions(None));
    assert_eq!(lines.len(), 7);
    assert_eq!(lines[6], "Rain: None");
}

#[test]
fn current_rain_present_truncates_not_rounds() {
    let lines = render_current(&conditions(Some(amt(2_700))));
    assert_eq!(lines[6], "Rain in last hour: 2mm");
}

#[test]
fn current_renders_every_field_line() {
    let lines = render_current(&conditions(None));
    assert_eq!(lines[0], "City: London");
    assert_eq!(lines[1], "Temperature: 10°C to 15°C");
    assert_eq!(lines[2], "Feels like: 12°C");
    assert_eq!(lines[3], "Humidity: 80%");
    assert_eq!(lines[4], "Wind speed: 5 m/s");
    assert_eq!(lines[5], "Cloud coverage: 40%");
}

#[test]
fn rendering_truncates_toward_zero() {
    let mut c = conditions(None);
    c.temp_min = amt(-5_300);
    c.temp_max = amt(-1_900);
    c.feels_like = amt(-500);
    let lines = render_current(&c);
    assert_eq!(lines[1], "Temperature: -5°C to -1°C");
    assert_eq!(lines[2], "Feels like: 0°C");
}

#[test]
fn forecast_table_has_nine_rows_with_one_cell_per_point() {
    let forecast = Forecast {
        points: vec![
            point("2024-01-01 12:00:00", Some(amt(400))),
            point("2024-01-01 15:00:00", None),
        ],
    };
    let rows = build_forecast_table(&forecast);
    assert_eq!(rows.len(), 9);
    assert_eq!(rows[0], "date           | 2024-01-01   | 2024-01-01   | ");
    assert_eq!(rows[1], "time           | 12:00:00     | 15:00:00     | ");
    assert!(rows[2].chars().all(|c| c == '-'));
    assert_eq!(rows[3], "temp range     | 10°C-15°C    | 10°C-15°C    | ");
    assert_eq!(rows[4], "feels like     | 12°C         | 12°C         | ");
    assert_eq!(rows[5], "humidity       | 80%          | 80%          | ");
    assert_eq!(rows[6], "wind speed     | 5 m/s        | 5 m/s        | ");
    assert_eq!(rows[7], "cloud coverage | 40%          | 40%          | ");
    assert_eq!(rows[8], "rain 3h        | 0mm          | None         | ");
    // Each non-divider row: a 17-character label prefix plus two
    // 15-character cells (13 of value, 2 of separator).
    for (i, row) in rows.iter().enumerate() {
        if i != 2 {
            assert_eq!(row.chars().count(), 17 + 2 * 15);
        }
    }
}

#[test]
fn forecast_rain_cells_distinguish_zero_from_absent() {
    let forecast = Forecast {
        points: vec![
            point("2024-01-01 12:00:00", Some(amt(400))),
            point("2024-01-01 15:00:00", None),
        ],
    };
    let rows = build_forecast_table(&forecast);
    let cells: Vec<&str> = rows[8].split("| ").collect();
    assert_eq!(cells[1].trim_end(), "0mm");
    assert_eq!(cells[2].trim_end(), "None");
}

#[test]
fn forecast_timestamp_without_time_uses_fallback_text() {
    let forecast = Forecast { points: vec![point("2024-01-01", None)] };
    let rows = build_forecast_table(&forecast);
    assert_eq!(rows[0], "date           | 2024-01-01   | ");
    assert_eq!(rows[1], "time           | failed to extract time| ");
}

#[test]
fn pad_to_thirteen_gives_exact_cell_width() {
    let padded = pad_string_with_char("14:00:00", 13, ' ');
    assert_eq!(padded.chars().count(), 13);
    let cell = format!("{}{}", padded, "| ");
    assert_eq!(cell, "14:00:00     | ");
}

#[test]
fn pad_never_truncates_wide_values() {
    let padded = pad_string_with_char("a value wider than thirteen", 13, ' ');
    assert_eq!(padded, "a value wider than thirteen");
}

#[test]
fn pad_fills_and_replaces_blanks_with_the_pad_character() {
    assert_eq!(pad_string_with_char("a b", 5, '.'), "a.b..");
    assert_eq!(pad_string_with_char("abc", 3, '*'), "abc");
}

#[test]
fn whole_number_rendering() {
    assert_eq!(u64_to_string(0), "0");
    assert_eq!(u64_to_string(7), "7");
    assert_eq!(u64_to_string(120), "120");
    assert_eq!(u64_to_string(18_446_744_073_709_551_615), "18446744073709551615");
    assert_eq!(signed_to_string(true, 5), "-5");
    assert_eq!(signed_to_string(false, 5), "5");
    assert_eq!(signed_to_string(true, 0), "0");
}

#[test]
fn amount_truncation_drops_the_fraction() {
    assert_eq!(trunc_string(amt(2_700)), "2");
    assert_eq!(trunc_string(amt(-2_700)), "-2");
    assert_eq!(trunc_string(amt(-500)), "0");
    assert_eq!(trunc_string(amt(0)), "0");
    assert_eq!(trunc_string(amt(15_000)), "15");
}
