//! The supervisor of one source: at most one fetch in flight, and of the terms typed meanwhile
//! only the latest is fetched next.
use vstd::prelude::*;

verus! {

/// What the supervisor of one source is doing.
#[derive(Debug)]
pub enum FetchState {
    Idle,
    Fetching(String),
    /// A fetch is in flight and a newer term waits for it to finish.
    FetchingPending { current: String, pending: String },
}

/// What the supervisor reacts to.
#[derive(Debug)]
pub enum FetchEvent {
    /// The live term changed to this one.
    QueryChanged(String),
    /// The fetch in flight finished.
    Completed,
}

/// What the caller is to do after an event.
#[derive(Debug)]
pub struct FetchCommand {
    /// Pass the finished fetch's result on.
    pub forward: bool,
    /// Start fetching this term.
    pub start: Option<String>,
}

pub enum FetchStateView {
    Idle,
    Fetching(Seq<char>),
    Pending(Seq<char>, Seq<char>),
}

impl View for FetchState {
    type V = FetchStateView;

    open spec fn view(&self) -> FetchStateView {
        match self {
            FetchState::Idle => FetchStateView::Idle,
            FetchState::Fetching(t) => FetchStateView::Fetching(t@),
            FetchState::FetchingPending { current, pending } => FetchStateView::Pending(
                current@,
                pending@,
            ),
        }
    }
}

/// Whether a fetch is in flight.
pub open spec fn in_flight(s: FetchStateView) -> bool {
    !(s is Idle)
}

/// The next state, whether a result is passed on, and the term to start fetching.
pub open spec fn fetch_step(s: FetchStateView, changed: Option<Seq<char>>) -> (
    FetchStateView,
    bool,
    Option<Seq<char>>,
) {
    match changed {
        Some(t) => if t.len() == 0 {
            match s {
                FetchStateView::Pending(c, _) => (FetchStateView::Fetching(c), false, None),
                _ => (s, false, None),
            }
        } else {
            match s {
                FetchStateView::Idle => (FetchStateView::Fetching(t), false, Some(t)),
                FetchStateView::Fetching(c) => (FetchStateView::Pending(c, t), false, None),
                FetchStateView::Pending(c, _) => (FetchStateView::Pending(c, t), false, None),
            }
        },
        None => match s {
            FetchStateView::Idle => (s, false, None),
            FetchStateView::Fetching(_) => (FetchStateView::Idle, true, None),
            FetchStateView::Pending(_, p) => (FetchStateView::Fetching(p), true, Some(p)),
        },
    }
}

pub open spec fn event_term(e: FetchEvent) -> Option<Seq<char>> {
    match e {
        FetchEvent::QueryChanged(t) => Some(t@),
        FetchEvent::Completed => None,
    }
}

impl FetchState {
    pub fn new() -> (r: FetchState)
        ensures
            r@ == FetchStateView::Idle,
    {
        FetchState::Idle
    }

    /// Reacts to one event. A fetch is started only where none is in flight, or where the one
    /// in flight has just finished; a term typed during a fetch replaces any term already
    /// waiting.
    pub fn on_event(self, event: FetchEvent) -> (r: (FetchState, FetchCommand))
        ensures
            ({
                let (s, forward, start) = fetch_step(self@, event_term(event));
                &&& r.0@ == s
                &&& r.1.forward == forward
                &&& (r.1.start is Some <==> start is Some)
                &&& (r.1.start is Some ==> r.1.start->0@ == start->0)
            }),
            r.1.start is Some ==> !in_flight(self@) || event is Completed,
            r.1.start is Some ==> r.0@ == FetchStateView::Fetching(r.1.start->0@),
    {
        match event {
            FetchEvent::QueryChanged(t) => {
                if t.as_str().is_empty() {
                    match self {
                        FetchState::FetchingPending { current, pending: _ } => (
                            FetchState::Fetching(current),
                            FetchCommand { forward: false, start: None },
                        ),
                        other => (other, FetchCommand { forward: false, start: None }),
                    }
                } else {
                    match self {
                        FetchState::Idle => {
                            let start = t.clone();
                            (FetchState::Fetching(t), FetchCommand { forward: false, start: Some(start) })
                        },
                        FetchState::Fetching(current) => (
                            FetchState::FetchingPending { current, pending: t },
                            FetchCommand { forward: false, start: None },
                        ),
                        FetchState::FetchingPending { current, pending: _ } => (
                            FetchState::FetchingPending { current, pending: t },
                            FetchCommand { forward: false, start: None },
                        ),
                    }
                }
            },
            FetchEvent::Completed => {
                match self {
                    FetchState::Idle => (FetchState::Idle, FetchCommand { forward: false, start: None }),
                    FetchState::Fetching(_) => (
                        FetchState::Idle,
                        FetchCommand { forward: true, start: None },
                    ),
                    FetchState::FetchingPending { current: _, pending } => {
                        let start = pending.clone();
                        (FetchState::Fetching(pending), FetchCommand { forward: true, start: Some(start) })
                    },
                }
            },
        }
    }
}

} // verus!
