use stationboard::colors::{color_for_code, line_color, Rgb};
use stationboard::error::{Error, ErrorType};
use stationboard::fetch::{
    build_departure, filter_departures, matches_terminal, parse_departures, DelayField, Departure,
    Stop,
};
use stationboard::numfmt::{i64_to_string, two_digits, u64_to_string};
use stationboard::state::{AppState, Message, Settings, Status};
use stationboard::time::{delta_string, format_clock, format_time, get_delta_time, ClockTime};

fn dep(number: &str, to: &str, departure: &str, delay: Option<i64>) -> Departure {
    Departure {
        number: number.to_string(),
        stop: Stop {
            departure: departure.to_string(),
            delay,
        },
        to: to.to_string(),
    }
}

#[test]
fn line_color_known_codes() {
    assert_eq!(line_color("31"), Rgb { r: 164, g: 162, b: 198 });
    assert_eq!(line_color("704"), Rgb { r: 141, g: 34, b: 78 });
    assert_eq!(line_color("701"), Rgb { r: 0, g: 141, b: 197 });
    assert_eq!(line_color("703"), Rgb { r: 255, g: 193, b: 3 });
    assert_eq!(line_color("91"), Rgb { r: 255, g: 255, b: 255 });
}

#[test]
fn line_color_unknown_is_red() {
    assert_eq!(line_color("99"), Rgb { r: 255, g: 0, b: 0 });
    assert_eq!(line_color(""), Rgb { r: 255, g: 0, b: 0 });
    assert_eq!(line_color("3 1"), Rgb { r: 255, g: 0, b: 0 });
}

#[test]
fn line_color_trims_whitespace() {
    assert_eq!(line_color(" 31 "), Rgb { r: 164, g: 162, b: 198 });
    assert_eq!(line_color("\t704\n"), Rgb { r: 141, g: 34, b: 78 });
    assert_eq!(color_for_code(" 31 "), Rgb { r: 255, g: 0, b: 0 });
}

#[test]
fn format_time_zero_pads() {
    let s = format_time("2024-05-31T09:05:00+02:00").unwrap();
    assert_eq!(s, "09:05");
    assert_eq!(s.len(), 5);
}

#[test]
fn format_time_afternoon() {
    assert_eq!(format_time("2024-05-31T17:15:00Z").unwrap(), "17:15");
}

#[test]
fn hour_twenty_four_formats_but_has_no_delta() {
    assert_eq!(format_time("2024-05-31T24:00:00Z").unwrap(), "24:00");
    let e = get_delta_time("2024-05-31T24:00:00Z").unwrap_err();
    assert_eq!(e.e, ErrorType::Parse);
}

#[test]
fn format_time_rejects_garbage() {
    let e = format_time("not a timestamp").unwrap_err();
    assert_eq!(e.e, ErrorType::Parse);
}

#[test]
fn decimal_strings() {
    assert_eq!(u64_to_string(0), "0");
    assert_eq!(u64_to_string(7), "7");
    assert_eq!(u64_to_string(435), "435");
    assert_eq!(i64_to_string(-5), "-5");
    assert_eq!(i64_to_string(12), "12");
    assert_eq!(two_digits(3), "03");
    assert_eq!(two_digits(59), "59");
}

#[test]
fn format_clock_pads_both_parts() {
    assert_eq!(format_clock(ClockTime { hour: 9, minute: 5 }), "09:05");
    assert_eq!(format_clock(ClockTime { hour: 23, minute: 59 }), "23:59");
}

#[test]
fn delta_is_absolute_difference() {
    let now = ClockTime { hour: 10, minute: 0 };
    assert_eq!(delta_string(ClockTime { hour: 10, minute: 7 }, now), "7");
    assert_eq!(delta_string(ClockTime { hour: 9, minute: 53 }, now), "7");
    assert_eq!(delta_string(now, now), "0");
}

#[test]
fn get_delta_time_returns_digits() {
    let s = get_delta_time("2024-05-31T17:15:00Z").unwrap();
    assert!(!s.is_empty());
    assert!(s.chars().all(|c| c.is_ascii_digit()));
}

#[test]
fn get_delta_time_rejects_garbage() {
    let e = get_delta_time("17:15").unwrap_err();
    assert_eq!(e.e, ErrorType::Parse);
}

#[test]
fn terminal_matching_is_substring_based() {
    assert!(matches_terminal("Klusplatz"));
    assert!(matches_terminal("Hermetschloo"));
    assert!(matches_terminal("via Klusplatz"));
    assert!(!matches_terminal("Seebach"));
    assert!(!matches_terminal("klusplatz"));
}

const BODY: &str = r#"{"stationboard":[
  {"number":"31","to":"Klusplatz","stop":{"departure":"2024-05-31T17:15:00Z","delay":1}},
  {"number":"704","to":"Seebach","stop":{"departure":"2024-05-31T17:20:00Z"}},
  {"number":"703","to":"Hermetschloo","stop":{"departure":"2024-05-31T17:25:00Z","delay":null}}
]}"#;

#[test]
fn fetch_filtered_keeps_terminals_in_order() {
    let deps = parse_departures(BODY, true).unwrap();
    assert_eq!(deps.len(), 2);
    assert_eq!(deps[0].to, "Klusplatz");
    assert_eq!(deps[0].number, "31");
    assert_eq!(deps[0].stop.delay, Some(1));
    assert_eq!(deps[1].to, "Hermetschloo");
    assert_eq!(deps[1].number, "703");
    assert_eq!(deps[1].stop.delay, None);
}

#[test]
fn fetch_unfiltered_keeps_everything_in_order() {
    let deps = parse_departures(BODY, false).unwrap();
    assert_eq!(deps.len(), 3);
    assert_eq!(deps[0].to, "Klusplatz");
    assert_eq!(deps[1].to, "Seebach");
    assert_eq!(deps[1].stop.departure, "2024-05-31T17:20:00Z");
    assert_eq!(deps[1].stop.delay, None);
    assert_eq!(deps[2].to, "Hermetschloo");
}

#[test]
fn fetch_invalid_json_is_a_json_error() {
    let e = parse_departures("this is not json", true).unwrap_err();
    assert_eq!(e.e, ErrorType::Json);
}

#[test]
fn fetch_missing_stationboard_is_a_structure_error() {
    let e = parse_departures("{}", true).unwrap_err();
    assert_eq!(e.e, ErrorType::Structure);
    let e = parse_departures(r#"{"stationboard":5}"#, false).unwrap_err();
    assert_eq!(e.e, ErrorType::Structure);
}

#[test]
fn fetch_malformed_element_is_a_json_error() {
    let e = parse_departures(r#"{"stationboard":[{"to":"Klusplatz"}]}"#, true).unwrap_err();
    assert_eq!(e.e, ErrorType::Json);
    let body = r#"{"stationboard":[{"number":"31","to":"Klusplatz","stop":{"departure":"2024-05-31T17:15:00Z","delay":"soon"}}]}"#;
    let e = parse_departures(body, true).unwrap_err();
    assert_eq!(e.e, ErrorType::Json);
}

#[test]
fn one_bad_element_fails_the_whole_fetch() {
    let body = r#"{"stationboard":[
      {"number":"31","to":"Klusplatz","stop":{"departure":"2024-05-31T17:15:00Z"}},
      {"number":42,"to":"Seebach","stop":{"departure":"2024-05-31T17:20:00Z"}}
    ]}"#;
    let e = parse_departures(body, false).unwrap_err();
    assert_eq!(e.e, ErrorType::Json);
}

#[test]
fn filter_flag_off_returns_input() {
    let deps = vec![dep("31", "Seebach", "2024-05-31T17:15:00Z", None)];
    let out = filter_departures(deps, false);
    assert_eq!(out.len(), 1);
    assert_eq!(out[0].to, "Seebach");
}

#[test]
fn build_departure_shapes() {
    let d = build_departure(Some("31"), Some("Klusplatz"), Some("t"), DelayField::Int(3)).unwrap();
    assert_eq!(d.number, "31");
    assert_eq!(d.to, "Klusplatz");
    assert_eq!(d.stop.departure, "t");
    assert_eq!(d.stop.delay, Some(3));
    let d = build_departure(Some("31"), Some("x"), Some("t"), DelayField::Null).unwrap();
    assert_eq!(d.stop.delay, None);
    let e = build_departure(None, Some("x"), Some("t"), DelayField::Absent).unwrap_err();
    assert_eq!(e.e, ErrorType::Json);
    let e = build_departure(Some("31"), Some("x"), Some("t"), DelayField::Other).unwrap_err();
    assert_eq!(e.e, ErrorType::Json);
}

#[test]
fn initial_state() {
    let s = AppState::new();
    assert_eq!(s.status, Status::Working);
    assert!(s.deps.is_empty());
    assert!(!s.show_delta);
    assert_eq!(s.settings, Settings { fontsize: 30 });
    assert_eq!(s.title(), "Application");
}

#[test]
fn tick_toggles_display_and_requests_fetch() {
    let mut s = AppState::new();
    let fetch = s.update(Message::Tick);
    assert!(fetch);
    assert!(s.show_delta);
    let fetch = s.update(Message::Tick);
    assert!(fetch);
    assert!(!s.show_delta);
}

#[test]
fn successful_fetch_replaces_departures() {
    let mut s = AppState::new();
    let fetch = s.update(Message::FetchResult(Ok(vec![dep(
        "31",
        "Klusplatz",
        "2024-05-31T17:15:00Z",
        None,
    )])));
    assert!(!fetch);
    assert_eq!(s.deps.len(), 1);
    assert_eq!(s.status, Status::Working);
}

#[test]
fn failed_fetch_keeps_departures_and_sets_error() {
    let mut s = AppState::new();
    s.update(Message::FetchResult(Ok(vec![dep(
        "31",
        "Klusplatz",
        "2024-05-31T17:15:00Z",
        None,
    )])));
    s.update(Message::FetchResult(Err(Error::new(ErrorType::Json))));
    assert_eq!(s.status, Status::Error);
    assert_eq!(s.deps.len(), 1);
    assert_eq!(s.deps[0].to, "Klusplatz");
}

#[test]
fn last_applied_fetch_result_wins() {
    let mut s = AppState::new();
    let first = vec![dep("31", "Klusplatz", "2024-05-31T17:15:00Z", None)];
    let second = vec![dep("703", "Hermetschloo", "2024-05-31T17:25:00Z", Some(4))];
    s.update(Message::FetchResult(Ok(first)));
    s.update(Message::FetchResult(Ok(second)));
    assert_eq!(s.deps.len(), 1);
    assert_eq!(s.deps[0].number, "703");
    let third = vec![dep("91", "Seebach", "2024-05-31T17:30:00Z", None)];
    let first_again = vec![dep("31", "Klusplatz", "2024-05-31T17:15:00Z", None)];
    s.update(Message::FetchResult(Ok(third)));
    s.update(Message::FetchResult(Ok(first_again)));
    assert_eq!(s.deps[0].number, "31");
}

#[test]
fn error_messages() {
    assert_eq!(Error::new(ErrorType::Parse).message(), "Parse error");
    assert_eq!(Error::new(ErrorType::Connection).message(), "Connection error");
    assert_eq!(Error::new(ErrorType::Json).message(), "JSON error");
    assert_eq!(Error::new(ErrorType::Structure).message(), "Structure error");
    assert_eq!(Error::new(ErrorType::Io).message(), "IO error");
    assert_eq!(Error::new(ErrorType::Reqwest).message(), "Reqwest error");
}
