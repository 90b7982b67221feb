//! Events that tasks wait on, described by what they are for.

use vstd::prelude::*;
use crate::ids::{CellId, TaskId};

verus! {

/// What an event is for. A done event holds its text in full; the events of a root task and
/// of a cell in progress are described by the task and the cell that they are about.
#[derive(Debug)]
pub enum EventDescription {
    /// The event of a root task that fires when all of its aggregated subgraph is clean.
    RootAllClean { task: TaskId },
    /// The event that fires when a cell of a task that is in progress gets its content.
    InProgressCell { task: TaskId, cell: CellId },
    /// The event that fires when some work is done; `description` is its text.
    Done { description: String },
}

/// An event that waiters can listen to.
#[derive(Debug)]
pub struct Event {
    pub description: EventDescription,
}

/// A listener to an event, with a note that says who is waiting and why.
#[derive(Debug)]
pub struct EventListener {
    pub event: EventDescription,
    pub note: String,
}

impl Clone for EventDescription {
    fn clone(&self) -> (res: Self)
        ensures
            res == *self,
    {
        match self {
            EventDescription::RootAllClean { task } => EventDescription::RootAllClean { task: *task },
            EventDescription::InProgressCell { task, cell } => EventDescription::InProgressCell {
                task: *task,
                cell: *cell,
            },
            EventDescription::Done { description } => EventDescription::Done {
                description: description.clone(),
            },
        }
    }
}

impl Clone for Event {
    fn clone(&self) -> (res: Self)
        ensures
            res == *self,
    {
        Event { description: self.description.clone() }
    }
}

impl Clone for EventListener {
    fn clone(&self) -> (res: Self)
        ensures
            res == *self,
    {
        EventListener { event: self.event.clone(), note: self.note.clone() }
    }
}

impl Event {
    /// Makes an event with the given description.
    pub fn new(description: EventDescription) -> (res: Event)
        ensures
            res.description == description,
    {
        Event { description }
    }

    /// Starts listening to this event; `note` says who listens. `note` is called once, here.
    pub fn listen_with_note<N: Fn() -> String>(&self, note: N) -> (res: EventListener)
        requires
            call_requires(note, ()),
        ensures
            res.event == self.description,
            exists|s: String| call_ensures(note, (), s) && res.note == s,
    {
        let n = note();
        EventListener { event: self.description.clone(), note: n }
    }
}

} // verus!
