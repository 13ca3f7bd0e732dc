use stationboard::colors::Rgb;
use stationboard::error::ErrorType;
use stationboard::fetch::{Departure, Stop};
use stationboard::render::{current_rows, render_row, view_rows};
use stationboard::state::{AppState, Message};
use stationboard::time::ClockTime;

fn dep(number: &str, to: &str, departure: &str, delay: Option<i64>) -> Departure {
    Departure {
        number: number.to_string(),
        stop: Stop {
            departure: departure.to_string(),
            delay,
        },
        to: to.to_string(),
    }
}

fn state_with(deps: Vec<Departure>, show_delta: bool) -> AppState {
    let mut s = AppState::new();
    s.update(Message::FetchResult(Ok(deps)));
    if show_delta {
        s.update(Message::Tick);
    }
    s
}

#[test]
fn rows_show_absolute_time_by_default() {
    let s = state_with(vec![dep("31", "Klusplatz", "2024-05-31T17:15:00Z", Some(5))], false);
    let now = ClockTime { hour: 10, minute: 0 };
    let rows = view_rows(&s, now).unwrap();
    assert_eq!(rows.len(), 1);
    assert_eq!(rows[0].number, "31");
    assert_eq!(rows[0].color, Rgb { r: 164, g: 162, b: 198 });
    assert_eq!(rows[0].to, "Klusplatz");
    assert_eq!(rows[0].time_text, "17:15");
    assert_eq!(rows[0].delay_text, "+5");
    assert!(rows[0].delay_alert);
}

#[test]
fn rows_show_delta_after_a_tick() {
    let s = state_with(vec![dep("704", "Seebach", "2024-05-31T17:15:00Z", None)], true);
    let now = ClockTime { hour: 10, minute: 0 };
    let rows = view_rows(&s, now).unwrap();
    assert_eq!(rows.len(), 1);
    assert_eq!(rows[0].time_text, "435");
    assert_eq!(rows[0].delay_text, "+0");
    assert!(!rows[0].delay_alert);
    assert_eq!(rows[0].color, Rgb { r: 141, g: 34, b: 78 });
}

#[test]
fn small_delay_is_no_alert() {
    let s = state_with(vec![dep("91", "Klusplatz", "2024-05-31T17:15:00Z", Some(2))], false);
    let rows = view_rows(&s, ClockTime { hour: 12, minute: 30 }).unwrap();
    assert_eq!(rows[0].delay_text, "+2");
    assert!(!rows[0].delay_alert);
}

#[test]
fn negative_delay_keeps_the_plus_prefix() {
    let s = state_with(vec![dep("91", "Klusplatz", "2024-05-31T17:15:00Z", Some(-3))], false);
    let rows = view_rows(&s, ClockTime { hour: 12, minute: 30 }).unwrap();
    assert_eq!(rows[0].delay_text, "+-3");
    assert!(!rows[0].delay_alert);
}

#[test]
fn unknown_line_gets_red_badge() {
    let s = state_with(vec![dep("hello", "Klusplatz", "2024-05-31T17:15:00Z", None)], false);
    let rows = view_rows(&s, ClockTime { hour: 12, minute: 30 }).unwrap();
    assert_eq!(rows[0].color, Rgb { r: 255, g: 0, b: 0 });
}

#[test]
fn rows_keep_departure_order() {
    let s = state_with(
        vec![
            dep("31", "Klusplatz", "2024-05-31T17:15:00Z", None),
            dep("703", "Hermetschloo", "2024-05-31T17:25:00Z", None),
        ],
        false,
    );
    let rows = view_rows(&s, ClockTime { hour: 9, minute: 0 }).unwrap();
    assert_eq!(rows.len(), 2);
    assert_eq!(rows[0].to, "Klusplatz");
    assert_eq!(rows[1].to, "Hermetschloo");
}

#[test]
fn malformed_timestamp_fails_the_projection() {
    let s = state_with(vec![dep("31", "Klusplatz", "tomorrow-ish", None)], false);
    let e = view_rows(&s, ClockTime { hour: 9, minute: 0 }).unwrap_err();
    assert_eq!(e.e, ErrorType::Parse);
}

#[test]
fn render_row_single_departure() {
    let d = dep("701", "Klusplatz", "2024-05-31T08:07:00+02:00", Some(1));
    let row = render_row(&d, false, ClockTime { hour: 8, minute: 0 }).unwrap();
    assert_eq!(row.time_text, "08:07");
    assert_eq!(row.color, Rgb { r: 0, g: 141, b: 197 });
    let row = render_row(&d, true, ClockTime { hour: 8, minute: 0 }).unwrap();
    assert_eq!(row.time_text, "7");
}

#[test]
fn current_rows_uses_the_real_clock() {
    let s = state_with(vec![dep("31", "Klusplatz", "2024-05-31T17:15:00Z", None)], false);
    let rows = current_rows(&s).unwrap();
    assert_eq!(rows.len(), 1);
    assert_eq!(rows[0].time_text, "17:15");
}
