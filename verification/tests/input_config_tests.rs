use weather_pipeline::amount::Amount;
use weather_pipeline::config::config;
use weather_pipeline::errors::WeatherError;
use weather_pipeline::input::{choice_mode, parse_choice, MenuChoice};
use weather_pipeline::pipeline::Mode;
use weather_pipeline::text::{first_token_of, second_token_of, trimmed};

#[test]
fn menu_choice_one_is_the_forecast() {
    assert_eq!(parse_choice("1"), Ok(MenuChoice::Forecast));
    assert_eq!(parse_choice("1\n"), Ok(MenuChoice::Forecast));
}

#[test]
fn menu_choice_two_is_the_current_weather() {
    assert_eq!(parse_choice("2"), Ok(MenuChoice::Current));
    assert_eq!(parse_choice("  2 \r\n"), Ok(MenuChoice::Current));
    assert_eq!(parse_choice("+2"), Ok(MenuChoice::Current));
}

#[test]
fn other_numbers_are_unrecognized_choices() {
    assert_eq!(parse_choice("3"), Ok(MenuChoice::Unrecognized));
    assert_eq!(parse_choice("0"), Ok(MenuChoice::Unrecognized));
    assert_eq!(parse_choice("-1"), Ok(MenuChoice::Unrecognized));
    assert_eq!(parse_choice("2147483647"), Ok(MenuChoice::Unrecognized));
    assert_eq!(parse_choice("-2147483648"), Ok(MenuChoice::Unrecognized));
}

#[test]
fn unparseable_selections_fail_with_input() {
    assert_eq!(parse_choice(""), Err(WeatherError::Input));
    assert_eq!(parse_choice("  \n"), Err(WeatherError::Input));
    assert_eq!(parse_choice("abc"), Err(WeatherError::Input));
    assert_eq!(parse_choice("2x"), Err(WeatherError::Input));
    assert_eq!(parse_choice("1.5"), Err(WeatherError::Input));
    assert_eq!(parse_choice("+"), Err(WeatherError::Input));
    assert_eq!(parse_choice("-"), Err(WeatherError::Input));
    assert_eq!(parse_choice("2147483648"), Err(WeatherError::Input));
    assert_eq!(parse_choice("-2147483649"), Err(WeatherError::Input));
    assert_eq!(parse_choice("99999999999999999999"), Err(WeatherError::Input));
}

#[test]
fn recognized_choices_map_to_their_modes() {
    assert_eq!(choice_mode(MenuChoice::Forecast), Some(Mode::Forecast));
    assert_eq!(choice_mode(MenuChoice::Current), Some(Mode::Current));
    assert_eq!(choice_mode(MenuChoice::Unrecognized), None);
}

#[test]
fn config_reads_trimmed_key_value_pairs_in_order() {
    let entries = config("views = templates\nport=5000\n");
    assert_eq!(
        entries,
        vec![
            ("views".to_string(), "templates".to_string()),
            ("port".to_string(), "5000".to_string()),
        ]
    );
}

#[test]
fn config_skips_blanks_comments_sections_and_bare_lines() {
    let text = "; a comment\n# another\n[section]\n\n   \nno separator here\nkey = value";
    let entries = config(text);
    assert_eq!(entries, vec![("key".to_string(), "value".to_string())]);
}

#[test]
fn config_splits_at_the_first_separator_only() {
    let entries = config("url = http://host/path?a=b");
    assert_eq!(entries, vec![("url".to_string(), "http://host/path?a=b".to_string())]);
}

#[test]
fn config_of_empty_text_has_no_entries() {
    assert_eq!(config(""), vec![]);
}

#[test]
fn trimming_and_tokenizing() {
    assert_eq!(trimmed("  a b \r\n"), "a b");
    assert_eq!(first_token_of("2024-01-01 12:00:00"), "2024-01-01");
    assert_eq!(second_token_of("2024-01-01 12:00:00"), "12:00:00");
    assert_eq!(second_token_of("2024-01-01"), "");
    assert_eq!(first_token_of("   "), "");
}

#[test]
fn amounts_are_canonical() {
    let zero = Amount::new(true, 0);
    assert_eq!(zero, Amount { neg: false, milli: 0 });
    let negative = Amount::new(true, 2_700);
    assert_eq!(negative, Amount { neg: true, milli: 2_700 });
    let (neg, whole) = negative.trunc_parts();
    assert!(neg);
    assert_eq!(whole, 2);
    assert_eq!(Amount::from_units(15), Amount { neg: false, milli: 15_000 });
}
