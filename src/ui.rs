//! The selection engine: a state machine over the labelled catalog that a
//! terminal loop drives one event at a time.
use vstd::prelude::*;

use crate::instance_details::{display_label, InstanceDetails, InstanceSet};
use crate::stateful_list::{next_index, previous_index, StatefulList};

verus! {

/// A key press, as far as the engine tells keys apart.
#[derive(Debug, Clone, Copy, PartialEq, Eq, Structural)]
pub enum Key {
    Char(char),
    Esc,
    Down,
    Up,
    Enter,
    Other,
}

/// What one poll of the terminal amounts to.
#[derive(Debug, Clone, Copy, PartialEq, Eq, Structural)]
pub enum UiEvent {
    Quit,
    Noop,
    ListNext,
    ListPrevious,
    Selected,
}

/// Where a selection run stands.
#[derive(Debug, Clone, Copy, PartialEq, Eq, Structural)]
pub enum Phase {
    Browsing,
    Committed(usize),
    Cancelled,
}

/// Why a selection run yields no record.
#[derive(Debug, Clone, Copy, PartialEq, Eq, Structural)]
pub enum SelectionError {
    /// The operator quit.
    Cancelled,
    /// There was nothing to choose from.
    Empty,
}

/// The event that a key press stands for.
pub open spec fn key_event(key: Key) -> UiEvent {
    match key {
        Key::Char(c) => if c == 'q' {
            UiEvent::Quit
        } else if c == 'j' {
            UiEvent::ListNext
        } else if c == 'k' {
            UiEvent::ListPrevious
        } else {
            UiEvent::Noop
        },
        Key::Esc => UiEvent::Quit,
        Key::Down => UiEvent::ListNext,
        Key::Up => UiEvent::ListPrevious,
        Key::Enter => UiEvent::Selected,
        Key::Other => UiEvent::Noop,
    }
}

/// `q`/Esc quit, `j`/Down and `k`/Up move, Enter confirms; anything else is
/// no event.
pub fn event_for_key(key: Key) -> (r: UiEvent)
    ensures
        r == key_event(key),
{
    match key {
        Key::Char(c) => if c == 'q' {
            UiEvent::Quit
        } else if c == 'j' {
            UiEvent::ListNext
        } else if c == 'k' {
            UiEvent::ListPrevious
        } else {
            UiEvent::Noop
        },
        Key::Esc => UiEvent::Quit,
        Key::Down => UiEvent::ListNext,
        Key::Up => UiEvent::ListPrevious,
        Key::Enter => UiEvent::Selected,
        Key::Other => UiEvent::Noop,
    }
}

/// One transition of the engine: the phase and cursor after `event`, for a
/// list of `len` items. Committed and Cancelled are final.
pub open spec fn step(phase: Phase, cursor: Option<usize>, len: nat, event: UiEvent) -> (
    Phase,
    Option<usize>,
) {
    match phase {
        Phase::Browsing => match event {
            UiEvent::Quit => (Phase::Cancelled, cursor),
            UiEvent::Noop => (phase, cursor),
            UiEvent::ListNext => (phase, next_index(cursor, len)),
            UiEvent::ListPrevious => (phase, previous_index(cursor, len)),
            UiEvent::Selected => match cursor {
                Some(i) => (Phase::Committed(i), cursor),
                None => (phase, cursor),
            },
        },
        _ => (phase, cursor),
    }
}

/// The selection list of a run and the configuration text shown beside it.
#[derive(Debug, Clone)]
pub struct Ui {
    pub list: StatefulList<(String, InstanceDetails)>,
    pub config: String,
    pub phase: Phase,
}

impl Ui {
    /// The cursor points at an item and a committed index is the cursor's.
    pub open spec fn wf(&self) -> bool {
        &&& self.list.wf()
        &&& match self.phase {
            Phase::Committed(i) => self.list.selected == Some(i),
            _ => true,
        }
    }

    /// A run over the records of `instance_set`, each labelled by its
    /// display name, browsing with the cursor on the first record.
    pub fn new(instance_set: InstanceSet, config: String) -> (r: Self)
        ensures
            r.wf(),
            r.phase == Phase::Browsing,
            r.config == config,
            r.list.items@.len() == instance_set.instances@.len(),
            forall|i: int|
                0 <= i < r.list.items@.len() ==> (#[trigger] r.list.items@[i]).1
                    == instance_set.instances@[i] && r.list.items@[i].0@ == display_label(
                    instance_set.instances@[i],
                ),
            r.list.selected == (if instance_set.instances@.len() > 0 {
                Some(0usize)
            } else {
                None
            }),
    {
        let mut items: Vec<(String, InstanceDetails)> = Vec::new();
        let mut i: usize = 0;
        while i < instance_set.instances.len()
            invariant
                i <= instance_set.instances@.len(),
                items@.len() == i,
                forall|k: int|
                    0 <= k < i ==> (#[trigger] items@[k]).1 == instance_set.instances@[k]
                        && items@[k].0@ == display_label(instance_set.instances@[k]),
            decreases instance_set.instances@.len() - i,
        {
            let d = &instance_set.instances[i];
            items.push((d.display_name(), d.duplicate()));
            i = i + 1;
        }
        Ui { list: StatefulList::with_items(items), config, phase: Phase::Browsing }
    }

    /// Applies one event to the run.
    pub fn handle_event(&mut self, event: UiEvent)
        requires
            old(self).wf(),
        ensures
            final(self).wf(),
            final(self).list.items@ == old(self).list.items@,
            final(self).config == old(self).config,
            (final(self).phase, final(self).list.selected) == step(
                old(self).phase,
                old(self).list.selected,
                old(self).list.items@.len(),
                event,
            ),
    {
        if self.phase == Phase::Browsing {
            match event {
                UiEvent::Quit => {
                    self.phase = Phase::Cancelled;
                },
                UiEvent::Noop => {},
                UiEvent::ListNext => {
                    self.list.next();
                },
                UiEvent::ListPrevious => {
                    self.list.previous();
                },
                UiEvent::Selected => {
                    if let Some(i) = self.list.selected {
                        self.phase = Phase::Committed(i);
                    }
                },
            }
        }
    }

    /// What a frame shows: every label in list order, flagged where the
    /// cursor stands. Reading it changes nothing.
    pub fn render_rows(&self) -> (r: Vec<(String, bool)>)
        ensures
            r@.len() == self.list.items@.len(),
            forall|i: int|
                0 <= i < r@.len() ==> (#[trigger] r@[i]).0@ == self.list.items@[i].0@ && r@[i].1 == (
                self.list.selected == Some(i as usize)),
    {
        let mut r: Vec<(String, bool)> = Vec::new();
        let mut i: usize = 0;
        while i < self.list.items.len()
            invariant
                i <= self.list.items@.len(),
                r@.len() == i,
                forall|k: int|
                    0 <= k < i ==> (#[trigger] r@[k]).0@ == self.list.items@[k].0@ && r@[k].1 == (
                    self.list.selected == Some(k as usize)),
            decreases self.list.items@.len() - i,
        {
            let highlighted = match self.list.selected {
                Some(j) => j == i,
                None => false,
            };
            r.push((self.list.items[i].0.clone(), highlighted));
            i = i + 1;
        }
        r
    }

    /// Whether the run has reached a final phase, or has nothing to offer.
    pub fn is_finished(&self) -> (r: bool)
        ensures
            r == (self.phase != Phase::Browsing || self.list.items@.len() == 0),
    {
        self.phase != Phase::Browsing || self.list.items.len() == 0
    }

    /// What the run yields: the committed record; `Cancelled` after a quit;
    /// `Empty` for an empty list that was not quit; `None` while browsing.
    pub fn outcome(&self) -> (r: Option<Result<InstanceDetails, SelectionError>>)
        requires
            self.wf(),
        ensures
            r == match self.phase {
                Phase::Committed(i) => Some(Ok(self.list.items@[i as int].1)),
                Phase::Cancelled => Some(Err(SelectionError::Cancelled)),
                Phase::Browsing => if self.list.items@.len() == 0 {
                    Some(Err(SelectionError::Empty))
                } else {
                    None
                },
            },
    {
        match self.phase {
            Phase::Committed(i) => Some(Ok(self.list.items[i].1.duplicate())),
            Phase::Cancelled => Some(Err(SelectionError::Cancelled)),
            Phase::Browsing => if self.list.items.len() == 0 {
                Some(Err(SelectionError::Empty))
            } else {
                None
            },
        }
    }
}

/// No event sequence applied to an empty list ever commits a record; in
/// particular confirming on an empty list does not.
pub proof fn lemma_empty_never_commits(phase: Phase, cursor: Option<usize>, event: UiEvent)
    requires
        cursor is None,
        !(phase is Committed),
    ensures
        !(step(phase, cursor, 0, event).0 is Committed),
        step(phase, cursor, 0, event).1 is None,
{
}

} // verus!
