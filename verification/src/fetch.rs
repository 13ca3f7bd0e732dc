//! Parsing a station-board JSON payload into departure records and the
//! filter over destination names.

use vstd::prelude::*;

use crate::error::{Error, ErrorType};
use crate::json::{
    is_valid_json, json_as_array, json_as_i64, json_as_str, json_from_str, json_get,
    json_is_null, json_of, json_view, json_views_of, JsonView,
};

verus! {

/// The stop data of one departure: its ISO-8601 departure timestamp and an
/// optional delay in minutes.
#[derive(Debug)]
pub struct Stop {
    pub departure: String,
    pub delay: Option<i64>,
}

/// One departure: the line identifier, the stop data and the destination.
#[derive(Debug)]
pub struct Departure {
    pub number: String,
    pub stop: Stop,
    pub to: String,
}

#[verifier::ext_equal]
pub ghost struct StopView {
    pub departure: Seq<char>,
    pub delay: Option<i64>,
}

#[verifier::ext_equal]
pub ghost struct DepartureView {
    pub number: Seq<char>,
    pub stop: StopView,
    pub to: Seq<char>,
}

impl View for Stop {
    type V = StopView;

    open spec fn view(&self) -> StopView {
        StopView { departure: self.departure@, delay: self.delay }
    }
}

impl View for Departure {
    type V = DepartureView;

    open spec fn view(&self) -> DepartureView {
        DepartureView { number: self.number@, stop: self.stop@, to: self.to@ }
    }
}

/// The abstract content of a departure list.
pub open spec fn deps_view(s: Seq<Departure>) -> Seq<DepartureView> {
    s.map_values(|d: Departure| d@)
}

pub fn clone_departure(d: &Departure) -> (r: Departure)
    ensures
        r@ == d@,
{
    Departure {
        number: d.number.clone(),
        stop: Stop { departure: d.stop.departure.clone(), delay: d.stop.delay },
        to: d.to.clone(),
    }
}

/// One string occurs inside another as a contiguous run of characters.
pub open spec fn spec_contains(hay: Seq<char>, needle: Seq<char>) -> bool {
    exists|i: int|
        0 <= i && i + needle.len() <= hay.len() && #[trigger] hay.subrange(i, i + needle.len())
            == needle
}

/// Relies on `str::contains`: whether the pattern matches a sub-slice of
/// the string.
#[verifier::external_body]
fn str_contains(hay: &str, needle: &str) -> (b: bool)
    ensures
        b == spec_contains(hay@, needle@),
{
    hay.contains(needle)
}

/// A destination counts as a terminal when it contains one of the two fixed
/// allow-list substrings (case-sensitive).
pub open spec fn is_terminal_destination(to: Seq<char>) -> bool {
    spec_contains(to, "Klusplatz"@) || spec_contains(to, "Hermetsc"@)
}

pub fn matches_terminal(to: &str) -> (b: bool)
    ensures
        b == is_terminal_destination(to@),
{
    str_contains(to, "Klusplatz") || str_contains(to, "Hermetsc")
}

/// The departures whose destination is a terminal, kept in their original
/// order.
pub open spec fn spec_keep_terminals(s: Seq<DepartureView>) -> Seq<DepartureView>
    decreases s.len(),
{
    if s.len() == 0 {
        Seq::empty()
    } else {
        let rest = spec_keep_terminals(s.drop_last());
        if is_terminal_destination(s.last().to) {
            rest.push(s.last())
        } else {
            rest
        }
    }
}

/// Law: every departure that the terminal filter keeps is bound for a
/// terminal.
pub proof fn lemma_keep_terminals_all(s: Seq<DepartureView>)
    ensures
        forall|i: int|
            #![trigger spec_keep_terminals(s)[i]]
            0 <= i < spec_keep_terminals(s).len() ==> is_terminal_destination(
                spec_keep_terminals(s)[i].to,
            ),
    decreases s.len(),
{
    if s.len() > 0 {
        lemma_keep_terminals_all(s.drop_last());
    }
}

/// Keeps every departure when the flag is off; keeps exactly the departures
/// bound for a terminal, in their original order, when it is on.
pub fn filter_departures(deps: Vec<Departure>, filter_to_terminals: bool) -> (r: Vec<
    Departure,
>)
    ensures
        filter_to_terminals ==> deps_view(r@) == spec_keep_terminals(deps_view(deps@)),
        !filter_to_terminals ==> r@ == deps@,
{
    if !filter_to_terminals {
        return deps;
    }
    let ghost all = deps_view(deps@);
    let mut out: Vec<Departure> = Vec::new();
    let mut i: usize = 0;
    proof {
        assert(deps_view(out@) =~= spec_keep_terminals(all.take(0)));
    }
    while i < deps.len()
        invariant
            i <= deps.len(),
            all == deps_view(deps@),
            deps_view(out@) == spec_keep_terminals(all.take(i as int)),
        decreases deps.len() - i,
    {
        let d = &deps[i];
        proof {
            assert(all.take(i + 1).drop_last() =~= all.take(i as int));
            assert(all.take(i + 1).last() == d@);
        }
        if matches_terminal(d.to.as_str()) {
            let ghost prev = deps_view(out@);
            out.push(clone_departure(d));
            proof {
                assert(deps_view(out@) =~= prev.push(d@));
            }
        }
        i += 1;
    }
    proof {
        assert(all.take(deps@.len() as int) =~= all);
    }
    out
}

/// What the `delay` slot of a stop object held in the payload.
#[derive(Clone, Copy, Debug, PartialEq, Eq, Structural)]
pub enum DelayField {
    Absent,
    Null,
    Int(i64),
    Other,
}

/// The delay that a `delay` slot deserializes to: an integer where one was
/// present, none where the slot was absent or null.
pub open spec fn spec_delay_value(d: DelayField) -> Option<i64> {
    match d {
        DelayField::Int(v) => Some(v),
        _ => None,
    }
}

/// Builds one departure record from the fields read out of one payload
/// element. Any missing field, and a `delay` slot holding anything but an
/// integer or null, is the element-shape failure that deserialization
/// reports as a JSON error.
pub fn build_departure(
    number: Option<&str>,
    to: Option<&str>,
    departure: Option<&str>,
    delay: DelayField,
) -> (r: Result<Departure, Error>)
    ensures
        match r {
            Ok(d) => number matches Some(n) && to matches Some(t) && departure matches Some(dt)
                && !(delay matches DelayField::Other) && d@ == (DepartureView {
                number: n@,
                stop: StopView { departure: dt@, delay: spec_delay_value(delay) },
                to: t@,
            }),
            Err(e) => (number is None || to is None || departure is None || delay matches
                DelayField::Other) && e == (Error { e: ErrorType::Json }),
        },
{
    match (number, to, departure) {
        (Some(n), Some(t), Some(dt)) => {
            match delay {
                DelayField::Other => Err(Error::new(ErrorType::Json)),
                DelayField::Int(v) => Ok(Departure {
                    number: n.to_owned(),
                    stop: Stop { departure: dt.to_owned(), delay: Some(v) },
                    to: t.to_owned(),
                }),
                _ => Ok(Departure {
                    number: n.to_owned(),
                    stop: Stop { departure: dt.to_owned(), delay: None },
                    to: t.to_owned(),
                }),
            }
        },
        _ => Err(Error::new(ErrorType::Json)),
    }
}

/// The member of an object under a key, or nothing.
pub open spec fn spec_obj_get(j: JsonView, key: Seq<char>) -> Option<JsonView> {
    match j {
        JsonView::Obj(m) => if m.contains_key(key) {
            Some(m[key])
        } else {
            None
        },
        _ => None,
    }
}

/// The text of a string member of an object under a key, or nothing.
pub open spec fn spec_obj_str(j: JsonView, key: Seq<char>) -> Option<Seq<char>> {
    match spec_obj_get(j, key) {
        Some(f) => match f {
            JsonView::Str(s) => Some(s),
            _ => None,
        },
        None => None,
    }
}

/// What the `delay` slot of a stop value holds: absent on anything but an
/// object with a `delay` key, and anything but an integer or null is some
/// other shape.
pub open spec fn spec_delay_of(stop: Option<JsonView>) -> DelayField {
    match stop {
        Some(j) => match spec_obj_get(j, "delay"@) {
            Some(d) => match d {
                JsonView::Null => DelayField::Null,
                JsonView::Num(oi) => match oi {
                    Some(n) => DelayField::Int(n),
                    None => DelayField::Other,
                },
                _ => DelayField::Other,
            },
            None => DelayField::Absent,
        },
        None => DelayField::Absent,
    }
}

/// The departure record that one `stationboard` element deserializes to, or
/// nothing where the element is malformed.
pub open spec fn spec_extract(j: JsonView) -> Option<DepartureView> {
    let stop = spec_obj_get(j, "stop"@);
    let departure = match stop {
        Some(sj) => spec_obj_str(sj, "departure"@),
        None => None,
    };
    let delay = spec_delay_of(stop);
    match (spec_obj_str(j, "number"@), spec_obj_str(j, "to"@), departure) {
        (Some(n), Some(t), Some(dt)) => if delay is Other {
            None
        } else {
            Some(
                DepartureView {
                    number: n,
                    stop: StopView { departure: dt, delay: spec_delay_value(delay) },
                    to: t,
                },
            )
        },
        _ => None,
    }
}

/// The records of a whole element sequence, or nothing where any single
/// element is malformed: no partial results.
pub open spec fn spec_extract_all(elems: Seq<JsonView>) -> Option<Seq<DepartureView>>
    decreases elems.len(),
{
    if elems.len() == 0 {
        Some(Seq::empty())
    } else {
        match (spec_extract_all(elems.drop_last()), spec_extract(elems.last())) {
            (Some(ds), Some(d)) => Some(ds.push(d)),
            _ => None,
        }
    }
}

/// The `stationboard` member of a parsed body, where it is an array.
pub open spec fn spec_board(doc: JsonView) -> Option<Seq<JsonView>> {
    match spec_obj_get(doc, "stationboard"@) {
        Some(b) => match b {
            JsonView::Arr(elems) => Some(elems),
            _ => None,
        },
        None => None,
    }
}

/// What a whole fetch computation returns for a response body: a function
/// of the body text and the filter flag alone.
pub open spec fn spec_parse(body: Seq<char>, filter_to_terminals: bool) -> Result<
    Seq<DepartureView>,
    ErrorType,
> {
    if !is_valid_json(body) {
        Err(ErrorType::Json)
    } else {
        match spec_board(json_of(body)) {
            None => Err(ErrorType::Structure),
            Some(elems) => match spec_extract_all(elems) {
                None => Err(ErrorType::Json),
                Some(ds) => Ok(
                    if filter_to_terminals {
                        spec_keep_terminals(ds)
                    } else {
                        ds
                    },
                ),
            },
        }
    }
}

fn json_field_str<'a>(v: &'a serde_json::Value, key: &str) -> (r: Option<&'a str>)
    ensures
        match spec_obj_str(json_view(*v), key@) {
            Some(s) => r matches Some(t) && t@ == s,
            None => r is None,
        },
{
    match json_get(v, key) {
        Some(f) => json_as_str(f),
        None => None,
    }
}

/// Reads one element of the `stationboard` array into a departure record.
fn extract_departure(v: &serde_json::Value) -> (r: Result<Departure, Error>)
    ensures
        match r {
            Ok(d) => spec_extract(json_view(*v)) == Some(d@),
            Err(e) => spec_extract(json_view(*v)) is None && e == (Error { e: ErrorType::Json }),
        },
{
    let number = json_field_str(v, "number");
    let to = json_field_str(v, "to");
    let stop = json_get(v, "stop");
    let departure = match stop {
        Some(s) => json_field_str(s, "departure"),
        None => None,
    };
    let delay = match stop {
        Some(s) => match json_get(s, "delay") {
            None => DelayField::Absent,
            Some(d) => {
                if json_is_null(d) {
                    DelayField::Null
                } else {
                    match json_as_i64(d) {
                        Some(n) => DelayField::Int(n),
                        None => DelayField::Other,
                    }
                }
            },
        },
        None => DelayField::Absent,
    };
    build_departure(number, to, departure, delay)
}

proof fn lemma_extract_all_none(elems: Seq<JsonView>, i: int)
    requires
        0 <= i < elems.len(),
        spec_extract(elems[i]) is None,
    ensures
        spec_extract_all(elems) is None,
    decreases elems.len(),
{
    if i < elems.len() - 1 {
        lemma_extract_all_none(elems.drop_last(), i);
    }
}

fn extract_all(arr: &Vec<serde_json::Value>) -> (r: Result<Vec<Departure>, Error>)
    ensures
        match r {
            Ok(v) => spec_extract_all(json_views_of(arr@)) == Some(deps_view(v@)),
            Err(e) => spec_extract_all(json_views_of(arr@)) is None && e == (Error {
                e: ErrorType::Json,
            }),
        },
{
    let ghost elems = json_views_of(arr@);
    let mut out: Vec<Departure> = Vec::new();
    let mut i: usize = 0;
    proof {
        assert(spec_extract_all(elems.take(0)) =~= Some(deps_view(out@)));
    }
    while i < arr.len()
        invariant
            i <= arr.len(),
            elems == json_views_of(arr@),
            spec_extract_all(elems.take(i as int)) == Some(deps_view(out@)),
        decreases arr.len() - i,
    {
        proof {
            assert(elems.take(i + 1).drop_last() =~= elems.take(i as int));
            assert(elems.take(i + 1).last() == json_view(arr@[i as int]));
        }
        match extract_departure(&arr[i]) {
            Ok(d) => {
                let ghost prev = deps_view(out@);
                out.push(d);
                proof {
                    assert(deps_view(out@) =~= prev.push(d@));
                }
            },
            Err(e) => {
                proof {
                    lemma_extract_all_none(elems, i as int);
                }
                return Err(e);
            },
        }
        i += 1;
    }
    proof {
        assert(elems.take(arr@.len() as int) =~= elems);
    }
    Ok(out)
}

/// Parses a station-board response body. A body that is not valid JSON
/// yields a JSON error; a parsed body without a `stationboard` array yields
/// a structure error; a malformed element yields a JSON error. On success
/// the elements are returned in payload order, restricted to terminal
/// destinations when the flag asks for it.
pub fn parse_departures(body: &str, filter_to_terminals: bool) -> (r: Result<
    Vec<Departure>,
    Error,
>)
    ensures
        match r {
            Ok(v) => spec_parse(body@, filter_to_terminals) == Ok::<Seq<DepartureView>, ErrorType>(deps_view(v@)) && (
            filter_to_terminals ==> (forall|i: int|
                #![trigger deps_view(v@)[i]]
                0 <= i < deps_view(v@).len() ==> is_terminal_destination(deps_view(v@)[i].to))),
            Err(e) => spec_parse(body@, filter_to_terminals) == Err::<Seq<DepartureView>, ErrorType>(e.e),
        },
{
    let value = match json_from_str(body) {
        Some(v) => v,
        None => {
            return Err(Error::new(ErrorType::Json));
        },
    };
    let ghost doc = json_of(body@);
    let board = match json_get(&value, "stationboard") {
        Some(b) => b,
        None => {
            return Err(Error::new(ErrorType::Structure));
        },
    };
    let arr = match json_as_array(board) {
        Some(a) => a,
        None => {
            return Err(Error::new(ErrorType::Structure));
        },
    };
    proof {
        assert(spec_board(doc) == Some(json_views_of(arr@)));
    }
    let raw = match extract_all(arr) {
        Ok(v) => v,
        Err(e) => {
            return Err(e);
        },
    };
    let filtered = filter_departures(raw, filter_to_terminals);
    proof {
        if filter_to_terminals {
            lemma_keep_terminals_all(deps_view(raw@));
        }
    }
    Ok(filtered)
}

} // verus!
