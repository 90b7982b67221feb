//! The values that the items of a task's storage hold.

use vstd::prelude::*;
use crate::event::{Event, EventDescription};
use crate::ids::{CellId, TaskId, TraitTypeId};

verus! {

/// A cell of a task.
#[derive(Debug, Clone, Copy, Hash, PartialEq, Eq, Structural)]
pub struct CellRef {
    pub task: TaskId,
    pub cell: CellId,
}

/// A collectible: a cell emitted under a trait type.
#[derive(Debug, Clone, Copy, Hash, PartialEq, Eq, Structural)]
pub struct CollectibleRef {
    pub collectible_type: TraitTypeId,
    pub cell: CellRef,
}

/// The collectibles of one trait type that a task gathers.
#[derive(Debug, Clone, Copy, Hash, PartialEq, Eq, Structural)]
pub struct CollectiblesRef {
    pub task: TaskId,
    pub collectible_type: TraitTypeId,
}

/// What a task's output is: a cell, the output of another task, or an error or a panic.
#[derive(Debug, Clone, Copy, PartialEq, Eq, Structural)]
pub enum OutputValue {
    Cell(CellRef),
    Output(TaskId),
    Error,
    Panic,
}

impl OutputValue {
    /// Whether the output points to a transient task.
    pub open spec fn spec_is_transient(self) -> bool {
        match self {
            OutputValue::Cell(cell) => cell.task.spec_is_transient(),
            OutputValue::Output(task) => task.spec_is_transient(),
            OutputValue::Error => false,
            OutputValue::Panic => false,
        }
    }

    /// Whether the output points to a transient task.
    pub fn is_transient(&self) -> (res: bool)
        ensures
            res == self.spec_is_transient(),
    {
        match self {
            OutputValue::Cell(cell) => cell.task.is_transient(),
            OutputValue::Output(task) => task.is_transient(),
            OutputValue::Error => false,
            OutputValue::Panic => false,
        }
    }
}

/// Why a task is active.
#[derive(Debug, Clone, Copy, PartialEq, Eq, Structural)]
pub enum ActiveType {
    RootTask,
    OnceTask,
    /// The aggregated task graph was scheduled because it has reached an AggregatedRoot while
    /// propagating the dirty container or is read strongly consistent. This state is reset when
    /// all this sub graph becomes clean again.
    CachedActiveUntilClean,
}

/// The state of a root of the aggregated task graph. It is transient: it is never persisted.
#[derive(Debug)]
pub struct RootState {
    pub ty: ActiveType,
    pub all_clean_event: Event,
}

impl Clone for RootState {
    fn clone(&self) -> (res: Self)
        ensures
            res == *self,
    {
        RootState { ty: self.ty, all_clean_event: self.all_clean_event.clone() }
    }
}

impl RootState {
    /// The root state of task `id`, with a fresh event for the moment its subgraph is clean.
    pub fn new(ty: ActiveType, id: TaskId) -> (res: Self)
        ensures
            res.ty == ty,
            res.all_clean_event.description == (EventDescription::RootAllClean { task: id }),
    {
        RootState { ty, all_clean_event: Event::new(EventDescription::RootAllClean { task: id }) }
    }
}

/// Whether a task is scheduled or running. It is transient: it is never persisted.
#[derive(Debug)]
pub enum InProgressState {
    Scheduled { done_event: Event },
    InProgress { stale: bool, once_task: bool, done_event: Event },
}

/// The state of a cell whose content is being computed. It is transient: it is never persisted.
#[derive(Debug)]
pub struct InProgressCellState {
    pub event: Event,
}

impl Clone for InProgressState {
    fn clone(&self) -> (res: Self)
        ensures
            res == *self,
    {
        match self {
            InProgressState::Scheduled { done_event } => InProgressState::Scheduled {
                done_event: done_event.clone(),
            },
            InProgressState::InProgress { stale, once_task, done_event } => {
                InProgressState::InProgress {
                    stale: *stale,
                    once_task: *once_task,
                    done_event: done_event.clone(),
                }
            },
        }
    }
}

impl Clone for InProgressCellState {
    fn clone(&self) -> (res: Self)
        ensures
            res == *self,
    {
        InProgressCellState { event: self.event.clone() }
    }
}

impl InProgressCellState {
    /// The state of cell `cell` of task `task_id`, with a fresh event for the moment the cell
    /// gets its content.
    pub fn new(task_id: TaskId, cell: CellId) -> (res: Self)
        ensures
            res.event.description == (EventDescription::InProgressCell { task: task_id, cell }),
    {
        InProgressCellState {
            event: Event::new(EventDescription::InProgressCell { task: task_id, cell }),
        }
    }
}

/// The aggregation number of a task in the aggregation graph.
#[derive(Debug, Clone, Copy, PartialEq, Eq, Structural)]
pub struct AggregationNumber {
    pub base: u32,
    pub distance: u32,
    pub effective: u32,
}

impl Default for AggregationNumber {
    fn default() -> (res: Self)
        ensures
            res == (AggregationNumber { base: 0, distance: 0, effective: 0 }),
    {
        AggregationNumber { base: 0, distance: 0, effective: 0 }
    }
}

} // verus!
