use vstd::prelude::*;
use vstd::string::*;

use crate::catalog::{discover, is_catalog_of, is_listed, DiscoveryError};
use crate::staging::{staging_message, switch_message, StagingError, SwitchError};
use crate::text::{is_trim_of, join, trim, views};

verus! {

/// Where the selection stands: browsing the catalog, or waiting for the
/// operator to confirm the switch to a staged kernel.
#[derive(Debug, Clone, PartialEq, Eq)]
pub enum SelectionState {
    Browsing { cursor: usize },
    /// `cursor` is where browsing resumes.
    Confirming { staged_version: String, cursor: usize },
}

/// An input to the selection state machine.
#[derive(Debug, Clone, Copy, PartialEq, Eq, Structural)]
pub enum Event {
    MoveNext,
    MovePrevious,
    Select,
    Quit,
    ConfirmYes,
    ConfirmNo,
}

/// What the caller is to do after an event.
#[derive(Debug, Clone, PartialEq, Eq)]
pub enum Action {
    /// Nothing beyond showing the new state.
    Nothing,
    /// End the session.
    Quit,
    /// Stage this version with the load operation, then report the outcome.
    Load(String),
    /// Switch to the staged kernel with the execute operation, then report the
    /// outcome.
    Execute,
}

/// The abstract state of an `App`.
pub ghost struct AppModel {
    pub versions: Seq<Seq<char>>,
    pub current: Option<Seq<char>>,
    pub cursor: nat,
    /// The staged version while confirming.
    pub staged: Option<Seq<char>>,
}

/// The cursor after one step forward over `n` rows.
pub open spec fn next_cursor(c: nat, n: nat) -> nat
    recommends
        n > 0,
{
    ((c + 1) as int % (n as int)) as nat
}

/// The cursor after one step back over `n` rows.
pub open spec fn previous_cursor(c: nat, n: nat) -> nat
    recommends
        n > 0,
{
    ((c + n - 1) as int % (n as int)) as nat
}

/// The cursor after `k` steps forward.
pub open spec fn steps_forward(c: nat, n: nat, k: nat) -> nat
    decreases k,
{
    if k == 0 {
        c
    } else {
        next_cursor(steps_forward(c, n, (k - 1) as nat), n)
    }
}

impl AppModel {
    /// A non-empty catalog, the cursor on one of its rows, and a staged
    /// version that is the one under the cursor.
    pub open spec fn wf(self) -> bool {
        &&& self.versions.len() > 0
        &&& self.cursor < self.versions.len()
        &&& self.staged is Some ==> self.staged->0 == self.versions[self.cursor as int]
    }

    /// The state after `e`.
    pub open spec fn after(self, e: Event) -> AppModel {
        match self.staged {
            None => match e {
                Event::MoveNext => AppModel {
                    cursor: next_cursor(self.cursor, self.versions.len()),
                    ..self
                },
                Event::MovePrevious => AppModel {
                    cursor: previous_cursor(self.cursor, self.versions.len()),
                    ..self
                },
                _ => self,
            },
            Some(_) => match e {
                Event::ConfirmNo => AppModel { staged: None, ..self },
                _ => self,
            },
        }
    }

    /// `a` is what the caller is to do after `e`.
    pub open spec fn is_action_for(self, e: Event, a: Action) -> bool {
        match self.staged {
            None => match e {
                Event::Select => match a {
                    Action::Load(v) => v@ == self.versions[self.cursor as int],
                    _ => false,
                },
                Event::Quit => a == Action::Quit,
                _ => a == Action::Nothing,
            },
            Some(_) => match e {
                Event::ConfirmYes => a == Action::Execute,
                _ => a == Action::Nothing,
            },
        }
    }

    /// The state once the load operation has ended with `outcome`.
    pub open spec fn after_load(self, outcome: Result<(), StagingError>) -> AppModel {
        match outcome {
            Ok(_) => AppModel { staged: Some(self.versions[self.cursor as int]), ..self },
            Err(_) => self,
        }
    }
}

/// The label of a catalog row: the version, marked when it is the running
/// kernel.
pub open spec fn row_text(version: Seq<char>, current: Option<Seq<char>>) -> Seq<char> {
    if current == Some(version) {
        "  "@ + version + " (current)"@
    } else {
        "  "@ + version
    }
}

/// The operator declined: "n" or "no", in any case.
pub open spec fn is_negative_answer(t: Seq<char>) -> bool {
    (t.len() == 1 && (t[0] == 'n' || t[0] == 'N')) || (t.len() == 2 && (t[0] == 'n' || t[0]
        == 'N') && (t[1] == 'o' || t[1] == 'O'))
}

/// The view of an optional string.
pub open spec fn opt_view(o: Option<String>) -> Option<Seq<char>> {
    match o {
        Some(s) => Some(s@),
        None => None,
    }
}

/// The event of a typed answer to the confirmation prompt, which defaults to
/// yes: `ConfirmNo` where the answer, trimmed, is "n" or "no" in any case.
pub fn answer_event(input: &str) -> (e: Event)
    ensures
        exists|t: Seq<char>|
            is_trim_of(t, input@) && e == (if is_negative_answer(t) {
                Event::ConfirmNo
            } else {
                Event::ConfirmYes
            }),
{
    let t = trim(input);
    let n = t.as_str().unicode_len();
    let negative = if n == 1 {
        let c = t.as_str().get_char(0);
        c == 'n' || c == 'N'
    } else if n == 2 {
        let c = t.as_str().get_char(0);
        let d = t.as_str().get_char(1);
        (c == 'n' || c == 'N') && (d == 'o' || d == 'O')
    } else {
        false
    };
    assert(negative == is_negative_answer(t@));
    if negative {
        Event::ConfirmNo
    } else {
        Event::ConfirmYes
    }
}

/// The selection state machine over a catalog of kernel versions.
pub struct App {
    kernel_versions: Vec<String>,
    current_kernel: Option<String>,
    state: SelectionState,
}

impl View for App {
    type V = AppModel;

    closed spec fn view(&self) -> AppModel {
        AppModel {
            versions: views(self.kernel_versions@),
            current: opt_view(self.current_kernel),
            cursor: match self.state {
                SelectionState::Browsing { cursor } => cursor as nat,
                SelectionState::Confirming { cursor, .. } => cursor as nat,
            },
            staged: match self.state {
                SelectionState::Browsing { .. } => None,
                SelectionState::Confirming { staged_version, .. } => Some(staged_version@),
            },
        }
    }
}

impl App {
    pub open spec fn wf(&self) -> bool {
        self@.wf()
    }

    /// Starts browsing at the first row of the catalog of the boot directory's
    /// listing (`None`: the directory does not exist). `current_kernel` is the
    /// running kernel's version where it is known.
    pub fn new(listing: Option<Vec<String>>, current_kernel: Option<String>) -> (r: Result<
        App,
        DiscoveryError,
    >)
        ensures
            match listing {
                None => r == Err::<App, DiscoveryError>(DiscoveryError::MissingDirectory),
                Some(names) => match r {
                    Ok(app) => {
                        &&& app.wf()
                        &&& is_catalog_of(app@.versions, views(names@))
                        &&& app@.cursor == 0
                        &&& app@.staged is None
                        &&& app@.current == opt_view(current_kernel)
                    },
                    Err(e) => e == DiscoveryError::Empty && forall|v: Seq<char>|
                        !is_listed(views(names@), v),
                },
            },
    {
        match discover(listing) {
            Ok(kernel_versions) => Ok(
                App {
                    kernel_versions,
                    current_kernel,
                    state: SelectionState::Browsing { cursor: 0 },
                },
            ),
            Err(e) => Err(e),
        }
    }

    /// The catalog.
    pub fn kernel_versions(&self) -> (r: &Vec<String>)
        ensures
            views(r@) == self@.versions,
    {
        &self.kernel_versions
    }

    /// The running kernel's version, where it is known.
    pub fn current_kernel(&self) -> (r: &Option<String>)
        ensures
            opt_view(*r) == self@.current,
    {
        &self.current_kernel
    }

    /// The state of the selection.
    pub fn state(&self) -> (r: &SelectionState)
        ensures
            match *r {
                SelectionState::Browsing { cursor } => self@.staged is None && cursor
                    == self@.cursor,
                SelectionState::Confirming { staged_version, cursor } => self@.staged == Some(
                    staged_version@,
                ) && cursor == self@.cursor,
            },
    {
        &self.state
    }

    /// The highlighted row.
    pub fn cursor(&self) -> (r: usize)
        ensures
            r == self@.cursor,
    {
        match &self.state {
            SelectionState::Browsing { cursor } => *cursor,
            SelectionState::Confirming { cursor, .. } => *cursor,
        }
    }

    /// Whether the catalog is being browsed, which is when the list is shown.
    pub fn is_browsing(&self) -> (r: bool)
        ensures
            r == (self@.staged is None),
    {
        match &self.state {
            SelectionState::Browsing { .. } => true,
            SelectionState::Confirming { .. } => false,
        }
    }

    /// Moves the cursor one row down, from the last row to the first; only
    /// while browsing.
    pub fn next(&mut self)
        requires
            old(self).wf(),
        ensures
            final(self).wf(),
            final(self)@ == old(self)@.after(Event::MoveNext),
    {
        if let SelectionState::Browsing { cursor } = self.state {
            let n = self.kernel_versions.len();
            let c = if cursor + 1 >= n {
                0
            } else {
                cursor + 1
            };
            proof {
                if cursor + 1 >= n {
                    vstd::arithmetic::div_mod::lemma_mod_self_0(n as int);
                } else {
                    vstd::arithmetic::div_mod::lemma_small_mod((cursor + 1) as nat, n as nat);
                }
            }
            self.state = SelectionState::Browsing { cursor: c };
        }
    }

    /// Moves the cursor one row up, from the first row to the last; only
    /// while browsing.
    pub fn previous(&mut self)
        requires
            old(self).wf(),
        ensures
            final(self).wf(),
            final(self)@ == old(self)@.after(Event::MovePrevious),
    {
        if let SelectionState::Browsing { cursor } = self.state {
            let n = self.kernel_versions.len();
            let c = if cursor == 0 {
                n - 1
            } else {
                cursor - 1
            };
            proof {
                if cursor == 0 {
                    vstd::arithmetic::div_mod::lemma_small_mod((n - 1) as nat, n as nat);
                } else {
                    vstd::arithmetic::div_mod::lemma_mod_add_multiples_vanish(
                        (cursor - 1) as int,
                        n as int,
                    );
                    vstd::arithmetic::div_mod::lemma_small_mod((cursor - 1) as nat, n as nat);
                }
            }
            self.state = SelectionState::Browsing { cursor: c };
        }
    }

    /// Takes one event and says what the caller is to do. A selection is not
    /// confirmed here: that waits for the outcome of the load operation
    /// (`finish_load`), and the outcome of a confirmed switch is handed to
    /// `finish_switch`.
    pub fn handle(&mut self, event: Event) -> (a: Action)
        requires
            old(self).wf(),
        ensures
            final(self).wf(),
            final(self)@ == old(self)@.after(event),
            old(self)@.is_action_for(event, a),
    {
        match (&self.state, event) {
            (SelectionState::Browsing { .. }, Event::MoveNext) => {
                self.next();
                Action::Nothing
            },
            (SelectionState::Browsing { .. }, Event::MovePrevious) => {
                self.previous();
                Action::Nothing
            },
            (SelectionState::Browsing { .. }, Event::Quit) => Action::Quit,
            (SelectionState::Browsing { cursor }, Event::Select) => {
                let v = self.kernel_versions[*cursor].clone();
                Action::Load(v)
            },
            (SelectionState::Confirming { .. }, Event::ConfirmYes) => Action::Execute,
            (SelectionState::Confirming { cursor, .. }, Event::ConfirmNo) => {
                let c = *cursor;
                self.state = SelectionState::Browsing { cursor: c };
                Action::Nothing
            },
            _ => Action::Nothing,
        }
    }

    /// Records the outcome of staging the version under the cursor: on
    /// success the switch waits for confirmation; on failure browsing goes on
    /// where it was, and the text to show is returned.
    pub fn finish_load(&mut self, outcome: Result<(), StagingError>) -> (r: Option<String>)
        requires
            old(self).wf(),
            old(self)@.staged is None,
        ensures
            final(self).wf(),
            final(self)@ == old(self)@.after_load(outcome),
            match outcome {
                Ok(_) => r is None,
                Err(e) => r is Some && r->0@ == staging_message(
                    e,
                    old(self)@.versions[old(self)@.cursor as int],
                ),
            },
    {
        let cursor = self.cursor();
        match outcome {
            Ok(()) => {
                let v = self.kernel_versions[cursor].clone();
                self.state = SelectionState::Confirming { staged_version: v, cursor };
                None
            },
            Err(e) => Some(e.message(self.kernel_versions[cursor].as_str())),
        }
    }

    /// Records the outcome of the switch, which on success should not have
    /// returned at all: either way browsing resumes where it was. Returns the
    /// text to show on failure.
    pub fn finish_switch(&mut self, outcome: Result<(), SwitchError>) -> (r: Option<String>)
        requires
            old(self).wf(),
            old(self)@.staged is Some,
        ensures
            final(self).wf(),
            final(self)@ == (AppModel { staged: None, ..old(self)@ }),
            match outcome {
                Ok(_) => r is None,
                Err(e) => r is Some && r->0@ == switch_message(e),
            },
    {
        let c = self.cursor();
        self.state = SelectionState::Browsing { cursor: c };
        match outcome {
            Ok(()) => None,
            Err(e) => Some(e.message()),
        }
    }

    /// The label of row `i`.
    pub fn row_label(&self, i: usize) -> (r: String)
        requires
            i < self@.versions.len(),
        ensures
            r@ == row_text(self@.versions[i as int], self@.current),
    {
        let v = self.kernel_versions[i].as_str();
        let current = match &self.current_kernel {
            Some(c) => *c == self.kernel_versions[i],
            None => false,
        };
        let pad = join("  ", v);
        if current {
            join(pad.as_str(), " (current)")
        } else {
            pad
        }
    }
}

} // verus!
