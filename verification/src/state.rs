//! The application state machine: the stored departure list, the status
//! flag and the display-mode toggle, driven by timer ticks and fetch
//! results.

use vstd::prelude::*;

use crate::error::Error;
use crate::fetch::{deps_view, Departure, DepartureView};

verus! {

/// The binary status flag: set to `Error` on a failed fetch, left untouched
/// by a successful one.
#[derive(Clone, Copy, Debug, PartialEq, Eq, Structural)]
pub enum Status {
    Working,
    Error,
}

/// Static display settings. They are never loaded from anywhere; the
/// defaults are the only values the application ever sees.
#[derive(Clone, Copy, Debug, PartialEq, Eq, Structural)]
pub struct Settings {
    pub fontsize: u32,
}

impl Settings {
    pub fn default() -> (s: Self)
        ensures
            s == (Settings { fontsize: 30 }),
    {
        Settings { fontsize: 30 }
    }
}

/// The two events the state machine reacts to: the recurring timer tick and
/// the arrival of a fetch result.
pub enum Message {
    Tick,
    FetchResult(Result<Vec<Departure>, Error>),
}

pub ghost enum MessageView {
    Tick,
    FetchResult(Result<Seq<DepartureView>, Error>),
}

impl View for Message {
    type V = MessageView;

    open spec fn view(&self) -> MessageView {
        match self {
            Message::Tick => MessageView::Tick,
            Message::FetchResult(res) => MessageView::FetchResult(
                match res {
                    Ok(v) => Ok(deps_view(v@)),
                    Err(e) => Err(*e),
                },
            ),
        }
    }
}

/// The application state: status flag, the most recently fetched departure
/// list, the static settings and the display-mode toggle.
pub struct AppState {
    pub status: Status,
    pub deps: Vec<Departure>,
    pub settings: Settings,
    pub show_delta: bool,
}

#[verifier::ext_equal]
pub ghost struct StateView {
    pub status: Status,
    pub deps: Seq<DepartureView>,
    pub settings: Settings,
    pub show_delta: bool,
}

impl View for AppState {
    type V = StateView;

    open spec fn view(&self) -> StateView {
        StateView {
            status: self.status,
            deps: deps_view(self.deps@),
            settings: self.settings,
            show_delta: self.show_delta,
        }
    }
}

/// The initial state: working, no departures, default settings, absolute
/// time display.
pub open spec fn spec_init_state() -> StateView {
    StateView {
        status: Status::Working,
        deps: Seq::empty(),
        settings: Settings { fontsize: 30 },
        show_delta: false,
    }
}

/// The transition function. A tick toggles the display mode and leaves the
/// rest alone; a successful fetch result replaces the departure list
/// wholesale and leaves the status untouched; a failed one sets the status
/// to `Error` and keeps the stored departures, so stale data stays on
/// display.
pub open spec fn spec_step(s: StateView, m: MessageView) -> StateView {
    match m {
        MessageView::Tick => StateView { show_delta: !s.show_delta, ..s },
        MessageView::FetchResult(res) => match res {
            Ok(d) => StateView { deps: d, ..s },
            Err(_) => StateView { status: Status::Error, ..s },
        },
    }
}

/// A tick is the one event that issues a new fetch.
pub open spec fn spec_issues_fetch(m: MessageView) -> bool {
    m is Tick
}

impl AppState {
    pub fn new() -> (s: AppState)
        ensures
            s@ == spec_init_state(),
    {
        let s = AppState {
            status: Status::Working,
            deps: Vec::new(),
            settings: Settings::default(),
            show_delta: false,
        };
        proof {
            assert(s@ =~= spec_init_state());
        }
        s
    }

    pub fn title(&self) -> (t: String)
        ensures
            t@ == "Application"@,
    {
        "Application".to_owned()
    }

    /// Applies one event and says whether a new fetch is to be issued.
    pub fn update(&mut self, message: Message) -> (fetch: bool)
        ensures
            final(self)@ == spec_step(old(self)@, message@),
            fetch == spec_issues_fetch(message@),
    {
        match message {
            Message::Tick => {
                self.show_delta = !self.show_delta;
                proof {
                    assert(self@ =~= spec_step(old(self)@, MessageView::Tick));
                }
                true
            },
            Message::FetchResult(res) => {
                let ghost m = Message::FetchResult(res)@;
                match res {
                    Ok(data) => {
                        self.deps = data;
                    },
                    Err(_) => {
                        self.status = Status::Error;
                    },
                }
                proof {
                    assert(self@ =~= spec_step(old(self)@, m));
                }
                false
            },
        }
    }
}

impl Default for AppState {
    fn default() -> (s: Self)
        ensures
            s@ == spec_init_state(),
    {
        AppState::new()
    }
}

/// Law: of two fetch results applied in sequence, the one applied last
/// determines the stored departures, whatever the first was and in
/// whichever order the fetches were issued.
pub proof fn lemma_last_applied_wins(
    s: StateView,
    first: Result<Seq<DepartureView>, Error>,
    second: Seq<DepartureView>,
)
    ensures
        spec_step(
            spec_step(s, MessageView::FetchResult(first)),
            MessageView::FetchResult(Ok(second)),
        ).deps == second,
{
}

/// Law: a failed fetch keeps the previously stored departures untouched and
/// sets the status flag to `Error`.
pub proof fn lemma_failed_fetch_keeps_departures(s: StateView, e: Error)
    ensures
        spec_step(s, MessageView::FetchResult(Err(e))).deps == s.deps,
        spec_step(s, MessageView::FetchResult(Err(e))).status == Status::Error,
{
}

/// Law: a tick only toggles the display mode; the departures and the status
/// stay as they are.
pub proof fn lemma_tick_toggles_display(s: StateView)
    ensures
        spec_step(s, MessageView::Tick).show_delta == !s.show_delta,
        spec_step(s, MessageView::Tick).deps == s.deps,
        spec_step(s, MessageView::Tick).status == s.status,
{
}

} // verus!
