//! The input loop's decisions: what a key does to the selection state, and
//! whether the session goes on after it.

use crate::record::{NodeRecord, RecordView};
use crate::selection::{App, AppView, FilterEdit};
use vstd::prelude::*;

verus! {

/// The length of one tick of the loop, in milliseconds: the longest time
/// that the loop waits for a key before it draws the screen again.
pub const TICK_MILLIS: u64 = 100;

/// The number of entries that a page key moves the selection by.
pub const PAGE_SIZE: usize = 10;

/// The key of a key event, as far as the loop tells keys apart.
#[derive(Clone, Copy, Debug, PartialEq, Eq)]
pub enum KeyCode {
    Char(char),
    Enter,
    Up,
    Down,
    PageUp,
    PageDown,
    Home,
    End,
    Backspace,
    Esc,
    /// Any key that has no meaning here.
    Other,
}

/// A key event: the key, and whether Ctrl was held.
#[derive(Clone, Copy, Debug, PartialEq, Eq)]
pub struct KeyPress {
    pub code: KeyCode,
    pub control: bool,
}

/// Where the session stands after a key.
#[derive(Debug, PartialEq, Eq)]
pub enum Outcome {
    /// The loop goes on.
    Running,
    /// A record was chosen; the loop ends with a copy of it.
    Confirmed(NodeRecord),
    /// The user gave up; the loop ends without a record.
    Cancelled,
}

/// An outcome with the chosen record as character sequences.
pub enum OutcomeView {
    Running,
    Confirmed(RecordView),
    Cancelled,
}

impl View for Outcome {
    type V = OutcomeView;

    open spec fn view(&self) -> OutcomeView {
        match self {
            Outcome::Running => OutcomeView::Running,
            Outcome::Confirmed(node) => OutcomeView::Confirmed(node@),
            Outcome::Cancelled => OutcomeView::Cancelled,
        }
    }
}

impl KeyPress {
    /// Whether the key event is one of the two that cancel: Ctrl+C, Ctrl+Q.
    pub open spec fn cancels(self) -> bool {
        self.control && (self.code == KeyCode::Char('q') || self.code == KeyCode::Char('c'))
    }
}

/// The selection state after a key event. The cancel keys and Enter leave
/// it alone. The arrow keys and the letters `k` and `j` move by one entry,
/// the page keys by a page, Home and End to either end. Backspace and Esc
/// shorten and clear the filter text; any other character is appended to it.
pub open spec fn state_after(s: AppView, key: KeyPress) -> AppView {
    if key.cancels() {
        s
    } else {
        match key.code {
            KeyCode::Enter => s,
            KeyCode::Up => s.shifted(1),
            KeyCode::Down => s.shifted(-1),
            KeyCode::PageUp => s.shifted(-(PAGE_SIZE as int)),
            KeyCode::PageDown => s.shifted(PAGE_SIZE as int),
            KeyCode::Home => s.at_start(),
            KeyCode::End => s.at_end(),
            KeyCode::Backspace => s.with_filter(FilterEdit::Backspace.applied(s.filter)),
            KeyCode::Esc => s.with_filter(FilterEdit::Clear.applied(s.filter)),
            KeyCode::Char(c) => if c == 'k' {
                s.shifted(1)
            } else if c == 'j' {
                s.shifted(-1)
            } else {
                s.with_filter(FilterEdit::Push(c).applied(s.filter))
            },
            KeyCode::Other => s,
        }
    }
}

/// Where the session stands after a key event in state `s`: cancelled on a
/// cancel key, confirmed on Enter with a selected record, running otherwise.
pub open spec fn outcome_after(s: AppView, key: KeyPress) -> OutcomeView {
    if key.cancels() {
        OutcomeView::Cancelled
    } else if key.code == KeyCode::Enter {
        match s.selected() {
            Some(node) => OutcomeView::Confirmed(node),
            None => OutcomeView::Running,
        }
    } else {
        OutcomeView::Running
    }
}

/// Handles one key event: changes the selection state as the key asks and
/// says whether the session goes on. The cancel keys are looked at first.
pub fn handle_key(app: &mut App, key: KeyPress) -> (outcome: Outcome)
    ensures
        final(app)@ == state_after(old(app)@, key),
        outcome@ == outcome_after(old(app)@, key),
        final(app)@.wf(),
{
    proof {
        use_type_invariant(&*app);
        app.lemma_consistent();
    }
    match key.code {
        KeyCode::Char(c) => {
            if key.control && (c == 'q' || c == 'c') {
                return Outcome::Cancelled;
            }
            if c == 'k' {
                app.move_selection_up();
            } else if c == 'j' {
                app.move_selection_down();
            } else {
                app.apply_filter(FilterEdit::Push(c));
            }
        },
        KeyCode::Enter => {
            match app.get_selected_node() {
                Some(node) => {
                    return Outcome::Confirmed(node.duplicate());
                },
                None => {},
            }
        },
        KeyCode::Up => app.move_selection_up(),
        KeyCode::Down => app.move_selection_down(),
        KeyCode::PageUp => app.move_page_up(PAGE_SIZE),
        KeyCode::PageDown => app.move_page_down(PAGE_SIZE),
        KeyCode::Home => app.move_to_start(),
        KeyCode::End => app.move_to_end(),
        KeyCode::Backspace => app.apply_filter(FilterEdit::Backspace),
        KeyCode::Esc => app.apply_filter(FilterEdit::Clear),
        KeyCode::Other => {},
    }
    Outcome::Running
}

/// How long the loop may wait for the next key: what is left of the tick
/// after `elapsed` milliseconds, and nothing once the tick is over.
pub fn poll_timeout(elapsed: u64) -> (wait: u64)
    ensures
        elapsed <= TICK_MILLIS ==> wait == TICK_MILLIS - elapsed,
        elapsed > TICK_MILLIS ==> wait == 0,
{
    if elapsed <= TICK_MILLIS {
        TICK_MILLIS - elapsed
    } else {
        0
    }
}

/// Whether a tick is over after `elapsed` milliseconds, so that the next
/// one starts.
pub fn tick_over(elapsed: u64) -> (over: bool)
    ensures
        over == (elapsed >= TICK_MILLIS),
{
    elapsed >= TICK_MILLIS
}

/// A cancel key ends the session as cancelled in every state, whatever the
/// filter text holds, and hands no record on.
pub proof fn lemma_cancel_always_cancels(s: AppView, key: KeyPress)
    requires
        key.cancels(),
    ensures
        outcome_after(s, key) == OutcomeView::Cancelled,
        state_after(s, key) == s,
{
}

/// The session ends exactly on a cancel key or on Enter with a selected
/// record; every other key leaves it running.
pub proof fn lemma_session_ends(s: AppView, key: KeyPress)
    ensures
        outcome_after(s, key) is Running <==> !key.cancels() && !(key.code == KeyCode::Enter
            && s.filtered().len() > 0),
        outcome_after(s, key) is Confirmed ==> outcome_after(s, key) == OutcomeView::Confirmed(
            s.nodes[s.filtered()[s.selection]],
        ),
{
}

} // verus!
