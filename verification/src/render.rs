//! The renderer: a pure projection of the application state into the list
//! of displayed rows.

use vstd::prelude::*;

use crate::colors::{line_color, spec_line_color, spec_trim, Rgb};
use crate::error::{Error, ErrorType};
use crate::fetch::{Departure, DepartureView};
use crate::numfmt::{i64_to_string, spec_dec_digits, spec_int_digits};
use crate::state::AppState;
use crate::time::{
    abs_delta_minutes, delta_string, format_clock, iso_clock_of, parse_iso_clock,
    spec_clock_string, ClockTime,
};

verus! {

/// One displayed row: the coloured line-number badge, the destination, the
/// time text (absolute or delta, after the display mode), and the delay
/// indicator with its alert flag.
#[derive(Debug)]
pub struct Row {
    pub number: String,
    pub color: Rgb,
    pub to: String,
    pub time_text: String,
    pub delay_text: String,
    pub delay_alert: bool,
}

#[verifier::ext_equal]
pub ghost struct RowView {
    pub number: Seq<char>,
    pub color: Rgb,
    pub to: Seq<char>,
    pub time_text: Seq<char>,
    pub delay_text: Seq<char>,
    pub delay_alert: bool,
}

impl View for Row {
    type V = RowView;

    open spec fn view(&self) -> RowView {
        RowView {
            number: self.number@,
            color: self.color,
            to: self.to@,
            time_text: self.time_text@,
            delay_text: self.delay_text@,
            delay_alert: self.delay_alert,
        }
    }
}

/// The abstract content of a row list.
pub open spec fn rows_view(s: Seq<Row>) -> Seq<RowView> {
    s.map_values(|r: Row| r@)
}

/// A departure's delay in minutes; an absent delay counts as zero.
pub open spec fn spec_delay_minutes(d: DepartureView) -> int {
    match d.stop.delay {
        Some(v) => v as int,
        None => 0,
    }
}

/// The delay indicator text: a `'+'` prefix before the delay in minutes.
pub open spec fn spec_delay_text(d: DepartureView) -> Seq<char> {
    seq!['+'] + spec_int_digits(spec_delay_minutes(d))
}

/// The time column of one row: the "HH:MM" clock string in absolute mode,
/// the minutes-from-now delta in delta mode; nothing where the timestamp
/// does not parse, or where delta mode meets a parsed time that is no time
/// of day.
pub open spec fn spec_time_text(d: DepartureView, show_delta: bool, now: ClockTime) -> Option<
    Seq<char>,
> {
    match iso_clock_of(d.stop.departure) {
        Some(t) => if !show_delta {
            Some(spec_clock_string(t))
        } else if t.is_time_of_day() {
            Some(spec_dec_digits(abs_delta_minutes(t, now) as nat))
        } else {
            None
        },
        None => None,
    }
}

/// The row for one departure, or nothing where its time column has none.
pub open spec fn spec_row(d: DepartureView, show_delta: bool, now: ClockTime) -> Option<RowView> {
    match spec_time_text(d, show_delta, now) {
        Some(tt) => Some(
            RowView {
                number: d.number,
                color: spec_line_color(spec_trim(d.number)),
                to: d.to,
                time_text: tt,
                delay_text: spec_delay_text(d),
                delay_alert: spec_delay_minutes(d) > 2,
            },
        ),
        None => None,
    }
}

/// The rows for a departure list, in order, or nothing where any single row
/// has none.
pub open spec fn spec_rows(deps: Seq<DepartureView>, show_delta: bool, now: ClockTime) -> Option<
    Seq<RowView>,
>
    decreases deps.len(),
{
    if deps.len() == 0 {
        Some(Seq::empty())
    } else {
        match (spec_rows(deps.drop_last(), show_delta, now), spec_row(
            deps.last(),
            show_delta,
            now,
        )) {
            (Some(rs), Some(r)) => Some(rs.push(r)),
            _ => None,
        }
    }
}

proof fn lemma_rows_none(deps: Seq<DepartureView>, show_delta: bool, now: ClockTime, i: int)
    requires
        0 <= i < deps.len(),
        spec_row(deps[i], show_delta, now) is None,
    ensures
        spec_rows(deps, show_delta, now) is None,
    decreases deps.len(),
{
    if i < deps.len() - 1 {
        lemma_rows_none(deps.drop_last(), show_delta, now, i);
    }
}

/// Renders one departure into its row. A malformed timestamp is a `Parse`
/// error.
pub fn render_row(dep: &Departure, show_delta: bool, now: ClockTime) -> (r: Result<Row, Error>)
    requires
        now.wf(),
    ensures
        match r {
            Ok(row) => spec_row(dep@, show_delta, now) == Some(row@),
            Err(e) => spec_row(dep@, show_delta, now) is None && e.e == ErrorType::Parse,
        },
{
    let parsed = parse_iso_clock(dep.stop.departure.as_str());
    let t = match parsed {
        Some(t) => t,
        None => {
            return Err(Error::new(ErrorType::Parse));
        },
    };
    let time_text = if show_delta {
        if t.hour <= 23 {
            delta_string(t, now)
        } else {
            return Err(Error::new(ErrorType::Parse));
        }
    } else {
        format_clock(t)
    };
    let delay_minutes: i64 = match dep.stop.delay {
        Some(v) => v,
        None => 0,
    };
    proof {
        reveal_strlit("+");
    }
    let mut delay_text = "+".to_owned();
    delay_text.append(i64_to_string(delay_minutes).as_str());
    let row = Row {
        number: dep.number.clone(),
        color: line_color(dep.number.as_str()),
        to: dep.to.clone(),
        time_text,
        delay_text,
        delay_alert: delay_minutes > 2,
    };
    proof {
        assert(row@.delay_text =~= spec_delay_text(dep@));
        assert(row@ =~= spec_row(dep@, show_delta, now).unwrap());
    }
    Ok(row)
}

/// Renders the whole state into its rows, one per stored departure, in
/// order, against the given current time of day. A malformed timestamp
/// anywhere is a `Parse` error for the whole projection.
pub fn view_rows(state: &AppState, now: ClockTime) -> (r: Result<Vec<Row>, Error>)
    requires
        now.wf(),
    ensures
        match r {
            Ok(rows) => spec_rows(state@.deps, state@.show_delta, now) == Some(rows_view(rows@)),
            Err(e) => spec_rows(state@.deps, state@.show_delta, now) is None && e.e
                == ErrorType::Parse,
        },
{
    let ghost all = state@.deps;
    let mut rows: Vec<Row> = Vec::new();
    let mut i: usize = 0;
    proof {
        assert(Some(rows_view(rows@)) =~= spec_rows(all.take(0), state@.show_delta, now));
    }
    while i < state.deps.len()
        invariant
            i <= state.deps.len(),
            all == state@.deps,
            now.wf(),
            spec_rows(all.take(i as int), state@.show_delta, now) == Some(rows_view(rows@)),
        decreases state.deps.len() - i,
    {
        let d = &state.deps[i];
        proof {
            assert(all.take(i + 1).drop_last() =~= all.take(i as int));
            assert(all.take(i + 1).last() == d@);
        }
        match render_row(d, state.show_delta, now) {
            Ok(row) => {
                let ghost prev = rows_view(rows@);
                rows.push(row);
                proof {
                    assert(rows_view(rows@) =~= prev.push(row@));
                }
            },
            Err(e) => {
                proof {
                    lemma_rows_none(all, state@.show_delta, now, i as int);
                }
                return Err(e);
            },
        }
        i += 1;
    }
    proof {
        assert(all.take(all.len() as int) =~= all);
    }
    Ok(rows)
}

/// Renders the state against the clock's current reading. Whatever time the
/// clock returns, the rows are exactly the projection of the state at some
/// valid time of day.
pub fn current_rows(state: &AppState) -> (r: Result<Vec<Row>, Error>)
    ensures
        match r {
            Ok(rows) => exists|now: ClockTime|
                now.is_time_of_day() && spec_rows(state@.deps, state@.show_delta, now) == Some(
                    rows_view(rows@),
                ),
            Err(e) => e.e == ErrorType::Parse && exists|now: ClockTime|
                now.is_time_of_day() && spec_rows(state@.deps, state@.show_delta, now) is None,
        },
{
    let now = crate::time::now_clock();
    view_rows(state, now)
}

} // verus!
