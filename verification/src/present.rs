//! The presenter: renders a normalized record as text, with no I/O.
//!
//! Current conditions render as one `label: value` line per field.
//! A forecast renders as a fixed-width table: one row per field, one
//! column per forecast point, and a divider row between the time row
//! and the data rows.  Every cell is left-justified and padded to a
//! thirteen-character minimum, then followed by the literal `"| "`;
//! values wider than the column are kept whole.  All numeric values
//! are truncated toward zero to whole units here, and only here.

use vstd::prelude::*;
use vstd::string::StringExecFns;
use crate::amount::Amount;
use crate::model::{CurrentConditions, Forecast, ForecastPoint};
use crate::text::{
    dec_digits, first_token, first_token_of, int_str, pad_spec, pad_string_with_char,
    second_token, second_token_of, signed_to_string, u64_to_string,
};

verus! {

/// The column width every cell is padded to.
pub const CELL_WIDTH: usize = 13;

/// Renders the whole units of `a`, truncated toward zero.
pub fn trunc_string(a: Amount) -> (r: String)
    ensures
        r@ == int_str(a.trunc()),
{
    let (neg, mag) = a.trunc_parts();
    signed_to_string(neg, mag)
}

/// The date column of a point: the first token of its timestamp.
pub open spec fn date_cell(p: ForecastPoint) -> Seq<char> {
    if first_token(p.timestamp@).len() > 0 {
        first_token(p.timestamp@)
    } else {
        "failed to extract date"@
    }
}

/// The time column of a point: the second token of its timestamp.
pub open spec fn time_cell(p: ForecastPoint) -> Seq<char> {
    if second_token(p.timestamp@).len() > 0 {
        second_token(p.timestamp@)
    } else {
        "failed to extract time"@
    }
}

/// The temperature-range column: `"<min>°C-<max>°C"`, truncated.
pub open spec fn temp_cell(p: ForecastPoint) -> Seq<char> {
    int_str(p.temp_min.trunc()) + "°C-"@ + int_str(p.temp_max.trunc()) + "°C"@
}

/// The feels-like column: `"<value>°C"`, truncated.
pub open spec fn feels_cell(p: ForecastPoint) -> Seq<char> {
    int_str(p.feels_like.trunc()) + "°C"@
}

/// The humidity column: `"<percent>%"`.
pub open spec fn humidity_cell(p: ForecastPoint) -> Seq<char> {
    dec_digits(p.humidity as nat) + "%"@
}

/// The wind-speed column: `"<value> m/s"`, truncated.
pub open spec fn wind_cell(p: ForecastPoint) -> Seq<char> {
    int_str(p.wind_speed.trunc()) + " m/s"@
}

/// The cloud-coverage column: `"<percent>%"`.
pub open spec fn clouds_cell(p: ForecastPoint) -> Seq<char> {
    dec_digits(p.cloud_coverage as nat) + "%"@
}

/// The rain column: `"<amount>mm"` truncated when a three-hour
/// amount is present, the literal `"None"` when it is absent.
pub open spec fn rain_cell(p: ForecastPoint) -> Seq<char> {
    match p.rain_three_hour {
        Some(a) => int_str(a.trunc()) + "mm"@,
        None => "None"@,
    }
}

/// One row's cell run: each value padded to the column width, each
/// followed by the `"| "` separator, in point order.
pub open spec fn row_cells(vals: Seq<Seq<char>>) -> Seq<char>
    decreases vals.len(),
{
    if vals.len() == 0 {
        Seq::empty()
    } else {
        row_cells(vals.drop_last()) + pad_spec(vals.last(), CELL_WIDTH as int, ' ') + "| "@
    }
}

/// A full table row: the label prefix, then one padded cell per
/// point.
pub open spec fn row_spec(label: Seq<char>, vals: Seq<Seq<char>>) -> Seq<char> {
    label + row_cells(vals)
}

/// The divider row between the time row and the data rows.
pub open spec fn divider_spec() -> Seq<char> {
    "-------------------------------------------------------------------------------------------"@
}

/// The nine rows of the forecast table: date, time, divider,
/// temperature range, feels-like, humidity, wind speed, cloud
/// coverage, rain — one padded cell per point in every non-divider
/// row.
pub open spec fn forecast_table_spec(points: Seq<ForecastPoint>) -> Seq<Seq<char>> {
    seq![
        row_spec("date           | "@, points.map_values(|p: ForecastPoint| date_cell(p))),
        row_spec("time           | "@, points.map_values(|p: ForecastPoint| time_cell(p))),
        divider_spec(),
        row_spec("temp range     | "@, points.map_values(|p: ForecastPoint| temp_cell(p))),
        row_spec("feels like     | "@, points.map_values(|p: ForecastPoint| feels_cell(p))),
        row_spec("humidity       | "@, points.map_values(|p: ForecastPoint| humidity_cell(p))),
        row_spec("wind speed     | "@, points.map_values(|p: ForecastPoint| wind_cell(p))),
        row_spec(
            "cloud coverage | "@,
            points.map_values(|p: ForecastPoint| clouds_cell(p)),
        ),
        row_spec("rain 3h        | "@, points.map_values(|p: ForecastPoint| rain_cell(p))),
    ]
}

fn date_cell_of(p: &ForecastPoint) -> (r: String)
    ensures
        r@ == date_cell(*p),
{
    let t = first_token_of(p.timestamp.as_str());
    if t.as_str().is_empty() {
        "failed to extract date".to_owned()
    } else {
        t
    }
}

fn time_cell_of(p: &ForecastPoint) -> (r: String)
    ensures
        r@ == time_cell(*p),
{
    let t = second_token_of(p.timestamp.as_str());
    if t.as_str().is_empty() {
        "failed to extract time".to_owned()
    } else {
        t
    }
}

fn temp_cell_of(p: &ForecastPoint) -> (r: String)
    ensures
        r@ == temp_cell(*p),
{
    let mut r = trunc_string(p.temp_min);
    r.append("°C-");
    r.append(trunc_string(p.temp_max).as_str());
    r.append("°C");
    r
}

fn feels_cell_of(p: &ForecastPoint) -> (r: String)
    ensures
        r@ == feels_cell(*p),
{
    let mut r = trunc_string(p.feels_like);
    r.append("°C");
    r
}

fn humidity_cell_of(p: &ForecastPoint) -> (r: String)
    ensures
        r@ == humidity_cell(*p),
{
    let mut r = u64_to_string(p.humidity as u64);
    r.append("%");
    r
}

fn wind_cell_of(p: &ForecastPoint) -> (r: String)
    ensures
        r@ == wind_cell(*p),
{
    let mut r = trunc_string(p.wind_speed);
    r.append(" m/s");
    r
}

fn clouds_cell_of(p: &ForecastPoint) -> (r: String)
    ensures
        r@ == clouds_cell(*p),
{
    let mut r = u64_to_string(p.cloud_coverage as u64);
    r.append("%");
    r
}

fn rain_cell_of(p: &ForecastPoint) -> (r: String)
    ensures
        r@ == rain_cell(*p),
{
    match p.rain_three_hour {
        Some(a) => {
            let mut r = trunc_string(a);
            r.append("mm");
            r
        },
        None => "None".to_owned(),
    }
}

/// Builds one table row from its label and the already-rendered cell
/// values, padding each cell and appending the separator.
fn build_cells_row(label: &str, cells: &Vec<String>) -> (r: String)
    ensures
        r@ == row_spec(label@, cells.deep_view()),
{
    let ghost dv = cells.deep_view();
    let mut r = label.to_owned();
    let mut i: usize = 0;
    while i < cells.len()
        invariant
            i <= cells.len(),
            dv == cells.deep_view(),
            dv.len() == cells@.len(),
            r@ == label@ + row_cells(dv.subrange(0, i as int)),
        decreases cells.len() - i,
    {
        let padded = pad_string_with_char(cells[i].as_str(), CELL_WIDTH, ' ');
        r.append(padded.as_str());
        r.append("| ");
        i = i + 1;
        proof {
            assert(dv.subrange(0, i as int).drop_last() =~= dv.subrange(0, i as int - 1));
            assert(dv.subrange(0, i as int).last() == cells@[i - 1]@);
            assert(r@ =~= label@ + row_cells(dv.subrange(0, i as int)));
        }
    }
    proof {
        assert(dv.subrange(0, cells@.len() as int) =~= dv);
    }
    r
}

/// Renders the forecast table: exactly nine rows, one padded cell
/// per point in every non-divider row, per [`forecast_table_spec`].
pub fn build_forecast_table(forecast: &Forecast) -> (r: Vec<String>)
    ensures
        r@.len() == 9,
        r.deep_view() == forecast_table_spec(forecast.points@),
{
    let points = &forecast.points;
    let mut date_cells: Vec<String> = Vec::new();
    let mut time_cells: Vec<String> = Vec::new();
    let mut temp_cells: Vec<String> = Vec::new();
    let mut feels_cells: Vec<String> = Vec::new();
    let mut humidity_cells: Vec<String> = Vec::new();
    let mut wind_cells: Vec<String> = Vec::new();
    let mut clouds_cells: Vec<String> = Vec::new();
    let mut rain_cells: Vec<String> = Vec::new();
    let mut i: usize = 0;
    while i < points.len()
        invariant
            i <= points.len(),
            date_cells@.len() == i,
            time_cells@.len() == i,
            temp_cells@.len() == i,
            feels_cells@.len() == i,
            humidity_cells@.len() == i,
            wind_cells@.len() == i,
            clouds_cells@.len() == i,
            rain_cells@.len() == i,
            forall|k: int|
                0 <= k < i ==> #[trigger] date_cells@[k]@ == date_cell(points@[k]),
            forall|k: int|
                0 <= k < i ==> #[trigger] time_cells@[k]@ == time_cell(points@[k]),
            forall|k: int|
                0 <= k < i ==> #[trigger] temp_cells@[k]@ == temp_cell(points@[k]),
            forall|k: int|
                0 <= k < i ==> #[trigger] feels_cells@[k]@ == feels_cell(points@[k]),
            forall|k: int|
                0 <= k < i ==> #[trigger] humidity_cells@[k]@ == humidity_cell(points@[k]),
            forall|k: int|
                0 <= k < i ==> #[trigger] wind_cells@[k]@ == wind_cell(points@[k]),
            forall|k: int|
                0 <= k < i ==> #[trigger] clouds_cells@[k]@ == clouds_cell(points@[k]),
            forall|k: int|
                0 <= k < i ==> #[trigger] rain_cells@[k]@ == rain_cell(points@[k]),
        decreases points.len() - i,
    {
        date_cells.push(date_cell_of(&points[i]));
        time_cells.push(time_cell_of(&points[i]));
        temp_cells.push(temp_cell_of(&points[i]));
        feels_cells.push(feels_cell_of(&points[i]));
        humidity_cells.push(humidity_cell_of(&points[i]));
        wind_cells.push(wind_cell_of(&points[i]));
        clouds_cells.push(clouds_cell_of(&points[i]));
        rain_cells.push(rain_cell_of(&points[i]));
        i = i + 1;
    }
    proof {
        assert(date_cells.deep_view() =~= points@.map_values(|p: ForecastPoint| date_cell(p)));
        assert(time_cells.deep_view() =~= points@.map_values(|p: ForecastPoint| time_cell(p)));
        assert(temp_cells.deep_view() =~= points@.map_values(|p: ForecastPoint| temp_cell(p)));
        assert(feels_cells.deep_view() =~= points@.map_values(|p: ForecastPoint| feels_cell(p)));
        assert(humidity_cells.deep_view() =~= points@.map_values(
            |p: ForecastPoint| humidity_cell(p),
        ));
        assert(wind_cells.deep_view() =~= points@.map_values(|p: ForecastPoint| wind_cell(p)));
        assert(clouds_cells.deep_view() =~= points@.map_values(|p: ForecastPoint| clouds_cell(p)));
        assert(rain_cells.deep_view() =~= points@.map_values(|p: ForecastPoint| rain_cell(p)));
    }
    let mut rows: Vec<String> = Vec::new();
    rows.push(build_cells_row("date           | ", &date_cells));
    rows.push(build_cells_row("time           | ", &time_cells));
    rows.push(
        "-------------------------------------------------------------------------------------------".to_owned(),
    );
    rows.push(build_cells_row("temp range     | ", &temp_cells));
    rows.push(build_cells_row("feels like     | ", &feels_cells));
    rows.push(build_cells_row("humidity       | ", &humidity_cells));
    rows.push(build_cells_row("wind speed     | ", &wind_cells));
    rows.push(build_cells_row("cloud coverage | ", &clouds_cells));
    rows.push(build_cells_row("rain 3h        | ", &rain_cells));
    proof {
        assert(rows.deep_view() =~~= forecast_table_spec(forecast.points@));
    }
    rows
}

/// The rain line of current-mode output: an absent amount renders as
/// the exact line `"Rain: None"`, a present amount truncated as
/// `"Rain in last hour: <amount>mm"`.
pub open spec fn rain_line_spec(c: CurrentConditions) -> Seq<char> {
    match c.rain_one_hour {
        Some(a) => "Rain in last hour: "@ + int_str(a.trunc()) + "mm"@,
        None => "Rain: None"@,
    }
}

/// The seven lines of current-mode output, one `label: value` line
/// per field.
pub open spec fn current_lines_spec(c: CurrentConditions) -> Seq<Seq<char>> {
    seq![
        "City: "@ + c.city@,
        "Temperature: "@ + int_str(c.temp_min.trunc()) + "°C to "@ + int_str(c.temp_max.trunc())
            + "°C"@,
        "Feels like: "@ + int_str(c.feels_like.trunc()) + "°C"@,
        "Humidity: "@ + dec_digits(c.humidity as nat) + "%"@,
        "Wind speed: "@ + int_str(c.wind_speed.trunc()) + " m/s"@,
        "Cloud coverage: "@ + dec_digits(c.cloud_coverage as nat) + "%"@,
        rain_line_spec(c),
    ]
}

/// Renders current conditions: exactly seven lines, per
/// [`current_lines_spec`].
pub fn render_current(c: &CurrentConditions) -> (r: Vec<String>)
    ensures
        r@.len() == 7,
        r.deep_view() == current_lines_spec(*c),
{
    let mut lines: Vec<String> = Vec::new();

    let mut city_line = "City: ".to_owned();
    city_line.append(c.city.as_str());
    lines.push(city_line);

    let mut temp_line = "Temperature: ".to_owned();
    temp_line.append(trunc_string(c.temp_min).as_str());
    temp_line.append("°C to ");
    temp_line.append(trunc_string(c.temp_max).as_str());
    temp_line.append("°C");
    lines.push(temp_line);

    let mut feels_line = "Feels like: ".to_owned();
    feels_line.append(trunc_string(c.feels_like).as_str());
    feels_line.append("°C");
    lines.push(feels_line);

    let mut humidity_line = "Humidity: ".to_owned();
    humidity_line.append(u64_to_string(c.humidity as u64).as_str());
    humidity_line.append("%");
    lines.push(humidity_line);

    let mut wind_line = "Wind speed: ".to_owned();
    wind_line.append(trunc_string(c.wind_speed).as_str());
    wind_line.append(" m/s");
    lines.push(wind_line);

    let mut clouds_line = "Cloud coverage: ".to_owned();
    clouds_line.append(u64_to_string(c.cloud_coverage as u64).as_str());
    clouds_line.append("%");
    lines.push(clouds_line);

    match c.rain_one_hour {
        Some(a) => {
            let mut rain_line = "Rain in last hour: ".to_owned();
            rain_line.append(trunc_string(a).as_str());
            rain_line.append("mm");
            lines.push(rain_line);
        },
        None => {
            lines.push("Rain: None".to_owned());
        },
    }
    proof {
        assert(lines.deep_view() =~~= current_lines_spec(*c));
    }
    lines
}

} // verus!
