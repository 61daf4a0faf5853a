//! The interactive session: a pure transition from a key and the current state to the next
//! state and an action for the caller to carry out.
use vstd::prelude::*;
use vstd::string::*;

use crate::hits::{bib_url_of, pdf_url_of, HitView, Paper, PaperHit};
use crate::identifier::identifier_text;
use crate::merge::{flatten, merge_to_papers, merged_from, FetchResult};
use crate::paper::{InfoView, PaperInfo, PaperUrl};
use crate::query::{parsed_terms, Query};
use crate::text::push_char;

verus! {

/// A key press, as the terminal reports it.
#[derive(Clone, Copy, Debug, PartialEq, Eq, Structural)]
pub enum Key {
    Char(char),
    Ctrl(char),
    Backspace,
    Up,
    Down,
    Esc,
    Other,
}

/// Where the session stands.
#[derive(Debug)]
pub enum State {
    Idle,
    Searching,
    Scrolling(u16),
    SelectedHit { index: u16, hit: PaperHit },
}

/// What the caller is asked to do after a key.
#[derive(Debug)]
pub enum Action {
    /// Send the new term to the sources, clear the list and start a new round.
    UpdateSearch,
    /// Fetch the text at the address into the clipboard.
    FetchToClip(PaperUrl),
    /// Download the paper from the address and add it to the catalog.
    Download(PaperInfo, PaperUrl),
    /// Draw the screen again.
    Reprint,
    Quit,
    /// Open the file or address with the system's default application, then draw again.
    Open(String),
}

pub enum StateView {
    Idle,
    Searching,
    Scrolling(u16),
    SelectedHit(u16, HitView),
}

pub enum ActionView {
    UpdateSearch,
    FetchToClip(Seq<char>),
    Download(InfoView, Seq<char>),
    Reprint,
    Quit,
    Open(Seq<char>),
}

impl View for State {
    type V = StateView;

    open spec fn view(&self) -> StateView {
        match self {
            State::Idle => StateView::Idle,
            State::Searching => StateView::Searching,
            State::Scrolling(i) => StateView::Scrolling(*i),
            State::SelectedHit { index, hit } => StateView::SelectedHit(*index, hit@),
        }
    }
}

impl View for Action {
    type V = ActionView;

    open spec fn view(&self) -> ActionView {
        match self {
            Action::UpdateSearch => ActionView::UpdateSearch,
            Action::FetchToClip(u) => ActionView::FetchToClip(u@),
            Action::Download(i, u) => ActionView::Download(i@, u@),
            Action::Reprint => ActionView::Reprint,
            Action::Quit => ActionView::Quit,
            Action::Open(t) => ActionView::Open(t@),
        }
    }
}

pub open spec fn action_view(a: Option<Action>) -> Option<ActionView> {
    match a {
        Some(a) => Some(a@),
        None => None,
    }
}

/// The session's data: the search term, the papers shown, and the state.
#[derive(Debug)]
pub struct StateData {
    pub term: String,
    pub papers: Vec<Paper>,
    pub state: State,
    /// The sources (by number) that have answered the current term.
    pub reported: Vec<usize>,
}

/// The result of a transition: the new term, whether the papers are cleared, the new state,
/// and the action.
pub struct Step {
    pub term: Seq<char>,
    pub clear: bool,
    pub state: StateView,
    pub action: Option<ActionView>,
}

/// The value of a digit key `1` to `9`, or 0 for any other character.
pub open spec fn digit_of_key(c: char) -> int {
    if '1' <= c && c <= '9' {
        (c as u32 - '0' as u32) as int
    } else {
        0
    }
}

/// What a key does to a selected hit.
pub open spec fn on_selected(c: char, hit: HitView) -> Option<ActionView> {
    match hit {
        HitView::Local(_, location, _) => Some(ActionView::Open(location)),
        HitView::Dblp(_, url, ee) => if c == '1' {
            Some(ActionView::Open(ee@))
        } else if c == '2' {
            Some(ActionView::Open(url@))
        } else if c == '3' {
            Some(ActionView::FetchToClip(bib_url_of(url@)))
        } else {
            Some(ActionView::Reprint)
        },
        HitView::Arxiv(info, ee) => if c == '1' && info.id is Some {
            Some(ActionView::Download(info, pdf_url_of(identifier_text(info.id->0))))
        } else if c == '2' {
            Some(ActionView::Open(ee@))
        } else {
            Some(ActionView::Reprint)
        },
    }
}

/// The address or path that opening a hit directly uses.
pub open spec fn open_target(hit: HitView) -> Seq<char> {
    match hit {
        HitView::Local(_, location, _) => location,
        HitView::Dblp(_, _, ee) => ee@,
        HitView::Arxiv(_, ee) => ee@,
    }
}

/// The transition of the session on one key.
pub open spec fn step(key: Key, term: Seq<char>, papers: Seq<Paper>, st: StateView) -> Step {
    let same = Step { term, clear: false, state: st, action: None };
    match key {
        Key::Ctrl(c) => if c == 'c' {
            Step { action: Some(ActionView::Quit), ..same }
        } else {
            same
        },
        Key::Char(c) => match st {
            StateView::Idle | StateView::Searching => if c != '\n' {
                Step {
                    term: term.push(c),
                    state: StateView::Searching,
                    action: Some(ActionView::UpdateSearch),
                    ..same
                }
            } else {
                same
            },
            StateView::Scrolling(i) => if c == 's' {
                Step { state: StateView::Idle, action: Some(ActionView::Reprint), ..same }
            } else if c == '\n' {
                if (i as int) < papers.len() && papers[i as int].0@.len() > 0 {
                    Step {
                        action: Some(ActionView::Open(open_target(papers[i as int].0@[0]@))),
                        ..same
                    }
                } else {
                    same
                }
            } else if 1 <= digit_of_key(c) && (i as int) < papers.len() && digit_of_key(c)
                <= papers[i as int].0@.len() {
                Step {
                    state: StateView::SelectedHit(
                        i,
                        papers[i as int].0@[digit_of_key(c) - 1]@,
                    ),
                    action: Some(ActionView::Reprint),
                    ..same
                }
            } else {
                same
            },
            StateView::SelectedHit(i, hit) => if c == 's' {
                Step { state: StateView::Scrolling(i), action: Some(ActionView::Reprint), ..same }
            } else {
                Step { action: on_selected(c, hit), ..same }
            },
        },
        Key::Backspace => match st {
            StateView::Idle | StateView::Searching => {
                let t = if term.len() > 0 {
                    term.drop_last()
                } else {
                    term
                };
                Step {
                    term: t,
                    clear: t.len() == 0,
                    state: if t.len() == 0 {
                        StateView::Idle
                    } else {
                        StateView::Searching
                    },
                    action: Some(ActionView::UpdateSearch),
                }
            },
            _ => same,
        },
        Key::Down => match st {
            StateView::Idle => if papers.len() > 0 {
                Step { state: StateView::Scrolling(0), action: Some(ActionView::Reprint), ..same }
            } else {
                same
            },
            StateView::Scrolling(i) => Step {
                state: if (i as int) + 1 < papers.len() && i < u16::MAX {
                    StateView::Scrolling((i + 1) as u16)
                } else {
                    st
                },
                action: Some(ActionView::Reprint),
                ..same
            },
            _ => same,
        },
        Key::Up => match st {
            StateView::Scrolling(i) => Step {
                state: if i > 0 {
                    StateView::Scrolling((i - 1) as u16)
                } else {
                    StateView::Idle
                },
                action: Some(ActionView::Reprint),
                ..same
            },
            _ => same,
        },
        Key::Esc => match st {
            StateView::SelectedHit(i, _) => Step {
                state: StateView::Scrolling(i),
                action: Some(ActionView::Reprint),
                ..same
            },
            StateView::Scrolling(_) => Step {
                state: StateView::Searching,
                action: Some(ActionView::Reprint),
                ..same
            },
            _ => same,
        },
        Key::Other => same,
    }
}

/// The digit value of a key `1` to `9`, or 0.
fn key_digit(c: char) -> (r: u32)
    ensures
        r as int == digit_of_key(c),
        r <= 9,
{
    if '1' <= c && c <= '9' {
        (c as u32) - ('0' as u32)
    } else {
        0
    }
}

fn open_hit(hit: &PaperHit) -> (r: Action)
    ensures
        r@ == ActionView::Open(open_target(hit@)),
{
    match hit {
        PaperHit::Local(paper) => Action::Open(paper.location.clone()),
        PaperHit::Dblp(paper) => Action::Open(paper.ee.raw()),
        PaperHit::Arxiv(paper) => Action::Open(paper.ee.raw()),
    }
}

fn select_action(c: char, hit: &PaperHit) -> (r: Action)
    ensures
        Some(r@) == on_selected(c, hit@),
{
    match hit {
        PaperHit::Local(paper) => Action::Open(paper.location.clone()),
        PaperHit::Dblp(paper) => {
            if c == '1' {
                Action::Open(paper.ee.raw())
            } else if c == '2' {
                Action::Open(paper.url.raw())
            } else if c == '3' {
                Action::FetchToClip(paper.bib_url())
            } else {
                Action::Reprint
            }
        },
        PaperHit::Arxiv(paper) => {
            if c == '1' && paper.metadata.id.is_some() {
                Action::Download(paper.metadata.clone(), paper.download_url())
            } else if c == '2' {
                Action::Open(paper.ee.raw())
            } else {
                Action::Reprint
            }
        },
    }
}

impl StateData {
    pub fn new() -> (r: StateData)
        ensures
            r.term@.len() == 0,
            r.papers@.len() == 0,
            r.state@ == StateView::Idle,
            r.reported@.len() == 0,
    {
        StateData { term: String::new(), papers: Vec::new(), state: State::Idle, reported: Vec::new() }
    }

    pub fn papers(&self) -> (r: &Vec<Paper>)
        ensures
            r@ == self.papers@,
    {
        &self.papers
    }

    pub fn clear_papers(&mut self)
        ensures
            final(self).papers@.len() == 0,
            final(self).term == old(self).term,
            final(self).state == old(self).state,
            final(self).reported == old(self).reported,
    {
        self.papers.clear();
    }

    pub fn term(&self) -> (r: &str)
        ensures
            r@ == self.term@,
    {
        self.term.as_str()
    }

    pub fn to_idle(&mut self)
        ensures
            final(self).state@ == StateView::Idle,
            final(self).term == old(self).term,
            final(self).papers@ == old(self).papers@,
            final(self).reported == old(self).reported,
    {
        self.state = State::Idle;
    }

    /// Merges hits into the papers shown (see `merge_to_papers`).
    pub fn merge_to_papers(&mut self, hits: Vec<PaperHit>)
        ensures
            merged_from(final(self).papers@, flatten(old(self).papers@) + hits@),
            final(self).term == old(self).term,
            final(self).state == old(self).state,
            final(self).reported == old(self).reported,
    {
        merge_to_papers(&mut self.papers, hits);
    }

    /// Starts a new search round: the list is cleared and no source has answered yet.
    pub fn begin_round(&mut self)
        ensures
            final(self).papers@.len() == 0,
            final(self).reported@.len() == 0,
            final(self).term == old(self).term,
            final(self).state == old(self).state,
    {
        self.papers.clear();
        self.reported = Vec::new();
    }

    /// Takes in the answer of source number `source`. An answer to another term than the live
    /// one is stale and changes nothing. A live one is merged into the papers and its source
    /// noted; once `sources` distinct sources have answered, a session that was searching
    /// becomes idle.
    pub fn record_result(&mut self, result: FetchResult, source: usize, sources: usize) -> (fresh: bool)
        ensures
            fresh == (result.query@ == parsed_terms(old(self).term@)),
            !fresh ==> final(self).papers@ == old(self).papers@ && final(self).state == old(
                self,
            ).state && final(self).reported == old(self).reported,
            fresh ==> merged_from(final(self).papers@, flatten(old(self).papers@) + result.hits@),
            fresh ==> final(self).reported@ == if old(self).reported@.contains(source) {
                old(self).reported@
            } else {
                old(self).reported@.push(source)
            },
            fresh ==> final(self).state@ == if final(self).reported@.len() >= sources && old(
                self,
            ).state@ == StateView::Searching {
                StateView::Idle
            } else {
                old(self).state@
            },
            final(self).term == old(self).term,
    {
        let live = Query::parse(self.term.as_str());
        if !same_terms(&live, &result.query) {
            return false;
        }
        merge_to_papers(&mut self.papers, result.hits);
        let mut seen = false;
        let mut i: usize = 0;
        while i < self.reported.len()
            invariant
                0 <= i <= self.reported@.len(),
                self.reported == old(self).reported,
                seen == exists|k: int| 0 <= k < i && self.reported@[k] == source,
            decreases self.reported@.len() - i,
        {
            if self.reported[i] == source {
                seen = true;
            }
            i = i + 1;
        }
        proof {
            if seen {
                let k = choose|k: int| 0 <= k < i && self.reported@[k] == source;
                assert(self.reported@.contains(source));
            }
        }
        if !seen {
            self.reported.push(source);
        }
        if self.reported.len() >= sources {
            if let State::Searching = self.state {
                self.state = State::Idle;
            }
        }
        true
    }

    /// The transition on one key: the new term, list and state, and what the caller is to do.
    /// It is defined for every key in every state.
    pub fn state_transition(&mut self, key: Key) -> (r: Option<Action>)
        ensures
            ({
                let s = step(key, old(self).term@, old(self).papers@, old(self).state@);
                &&& final(self).term@ == s.term
                &&& final(self).papers@ == if s.clear {
                    Seq::empty()
                } else {
                    old(self).papers@
                }
                &&& final(self).state@ == s.state
                &&& action_view(r) == s.action
            }),
            final(self).reported == old(self).reported,
    {
        match key {
            Key::Ctrl(c) => {
                if c == 'c' {
                    Some(Action::Quit)
                } else {
                    None
                }
            },
            Key::Char(c) => self.on_char(c),
            Key::Backspace => {
                match self.state {
                    State::Idle | State::Searching => {
                        let n = self.term.unicode_len();
                        if n > 0 {
                            let t = String::from_str(self.term.as_str().substring_char(0, n - 1));
                            proof {
                                assert(t@ =~= self.term@.drop_last());
                            }
                            self.term = t;
                        }
                        if self.term.unicode_len() == 0 {
                            self.state = State::Idle;
                            self.papers.clear();
                            proof {
                                assert(self.papers@ =~= Seq::<Paper>::empty());
                            }
                        } else {
                            self.state = State::Searching;
                        }
                        Some(Action::UpdateSearch)
                    },
                    _ => None,
                }
            },
            Key::Down => {
                match self.state {
                    State::Idle => {
                        if self.papers.len() > 0 {
                            self.state = State::Scrolling(0);
                            Some(Action::Reprint)
                        } else {
                            None
                        }
                    },
                    State::Scrolling(i) => {
                        if (i as usize) + 1 < self.papers.len() && i < u16::MAX {
                            self.state = State::Scrolling(i + 1);
                        }
                        Some(Action::Reprint)
                    },
                    _ => None,
                }
            },
            Key::Up => {
                match self.state {
                    State::Scrolling(i) => {
                        if i > 0 {
                            self.state = State::Scrolling(i - 1);
                        } else {
                            self.state = State::Idle;
                        }
                        Some(Action::Reprint)
                    },
                    _ => None,
                }
            },
            Key::Esc => {
                match self.state {
                    State::SelectedHit { index, hit: _ } => {
                        self.state = State::Scrolling(index);
                        Some(Action::Reprint)
                    },
                    State::Scrolling(_) => {
                        self.state = State::Searching;
                        Some(Action::Reprint)
                    },
                    _ => None,
                }
            },
            Key::Other => None,
        }
    }

    fn on_char(&mut self, c: char) -> (r: Option<Action>)
        ensures
            ({
                let s = step(Key::Char(c), old(self).term@, old(self).papers@, old(self).state@);
                &&& final(self).term@ == s.term
                &&& final(self).papers@ == old(self).papers@
                &&& !s.clear
                &&& final(self).state@ == s.state
                &&& action_view(r) == s.action
            }),
            final(self).reported == old(self).reported,
    {
        match &self.state {
            State::Idle | State::Searching => {
                if c != '\n' {
                    push_char(&mut self.term, c);
                    self.state = State::Searching;
                    Some(Action::UpdateSearch)
                } else {
                    None
                }
            },
            State::Scrolling(i) => {
                let i = *i;
                if c == 's' {
                    self.state = State::Idle;
                    Some(Action::Reprint)
                } else if c == '\n' {
                    if (i as usize) < self.papers.len() && self.papers[i as usize].0.len() > 0 {
                        Some(open_hit(&self.papers[i as usize].0[0]))
                    } else {
                        None
                    }
                } else {
                    let d = key_digit(c);
                    if 1 <= d && (i as usize) < self.papers.len() && (d as usize)
                        <= self.papers[i as usize].0.len() {
                        let hit = self.papers[i as usize].0[(d - 1) as usize].clone();
                        self.state = State::SelectedHit { index: i, hit };
                        Some(Action::Reprint)
                    } else {
                        None
                    }
                }
            },
            State::SelectedHit { index, hit } => {
                let index = *index;
                if c == 's' {
                    self.state = State::Scrolling(index);
                    Some(Action::Reprint)
                } else {
                    Some(select_action(c, hit))
                }
            },
        }
    }
}

/// Whether two queries hold the same terms.
pub fn same_terms(a: &Query, b: &Query) -> (r: bool)
    ensures
        r == (a@ == b@),
{
    let n = a.terms.len();
    proof {
        assert(a@.len() == a.terms@.len() && b@.len() == b.terms@.len());
    }
    if n != b.terms.len() {
        return false;
    }
    let mut i: usize = 0;
    while i < n
        invariant
            n == a.terms@.len(),
            n == b.terms@.len(),
            0 <= i <= n,
            forall|k: int| 0 <= k < i ==> a@[k] == b@[k],
        decreases n - i,
    {
        let same = match (&a.terms[i], &b.terms[i]) {
            (crate::query::QueryTerm::Exact(x), crate::query::QueryTerm::Exact(y)) => *x == *y,
            (crate::query::QueryTerm::Prefix(x), crate::query::QueryTerm::Prefix(y)) => *x == *y,
            _ => false,
        };
        if !same {
            proof {
                assert(a@[i as int] != b@[i as int]);
            }
            return false;
        }
        i = i + 1;
    }
    proof {
        assert(a@ =~= b@);
    }
    true
}

/// Every key has a transition in every state, and none selects a paper where the list is
/// empty: from `Idle` or `Searching` with no papers, no key leads to scrolling or to a
/// selected hit, and where the session scrolls, a move down never leaves the list.
pub proof fn lemma_transitions_stay_in_list(key: Key, term: Seq<char>, papers: Seq<Paper>, st: StateView)
    ensures
        (st is Idle || st is Searching) && papers.len() == 0 ==> !(step(key, term, papers, st).state is Scrolling)
            && !(step(key, term, papers, st).state is SelectedHit),
        st matches StateView::Scrolling(i) && (i as int) < papers.len() ==> match step(key, term, papers, st).state {
            StateView::Scrolling(j) => (j as int) < papers.len(),
            StateView::SelectedHit(j, _) => (j as int) < papers.len(),
            _ => true,
        },
{
}

} // verus!
