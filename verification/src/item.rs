//! The items of a task's storage, split into keys and values and joined again.

use vstd::prelude::*;
use crate::event::{Event, EventDescription, EventListener};
use crate::ids::{CellId, TaskId, TraitTypeId, ValueTypeId};
use crate::registry::{SharedError, TypedSharedReference};
use crate::state::{
    AggregationNumber, CellRef, CollectibleRef, CollectiblesRef, InProgressCellState,
    InProgressState, OutputValue, RootState,
};

verus! {

/// An item of a task's storage: its key says what the item is about, its value what it holds.
#[derive(Debug)]
pub enum CachedDataItem {
    /// The output of the task.
    Output {
        value: OutputValue,
    },
    /// A collectible that the task emitted, with a count.
    Collectible {
        collectible: CollectibleRef,
        value: i32,
    },
    /// The task is dirty: it has to run again.
    Dirty {
        value: (),
    },
    /// The task is to be dirty once it has been restored from persistent storage.
    DirtyWhenPersisted {
        value: (),
    },
    /// A child task that the task spawned.
    Child {
        task: TaskId,
        value: (),
    },
    /// The content of a cell of the task.
    CellData {
        cell: CellId,
        value: TypedSharedReference,
    },
    /// The highest index of the task's cells of a value type.
    CellTypeMaxIndex {
        cell_type: ValueTypeId,
        value: u32,
    },
    /// The task read the output of `target`.
    OutputDependency {
        target: TaskId,
        value: (),
    },
    /// The task read the cell `target`.
    CellDependency {
        target: CellRef,
        value: (),
    },
    /// The task read the collectibles `target`.
    CollectiblesDependency {
        target: CollectiblesRef,
        value: (),
    },
    /// `task` read the output of the task.
    OutputDependent {
        task: TaskId,
        value: (),
    },
    /// `task` read the cell `cell` of the task.
    CellDependent {
        cell: CellId,
        task: TaskId,
        value: (),
    },
    /// `task` read the collectibles of type `collectible_type` of the task.
    CollectiblesDependent {
        collectible_type: TraitTypeId,
        task: TaskId,
        value: (),
    },
    /// The task's aggregation number in the aggregation graph.
    AggregationNumber {
        value: AggregationNumber,
    },
    /// A follower of the task in the aggregation graph, with a count.
    Follower {
        task: TaskId,
        value: i32,
    },
    /// An upper of the task in the aggregation graph, with a count.
    Upper {
        task: TaskId,
        value: i32,
    },
    /// A dirty task in the aggregated subgraph, with a count.
    AggregatedDirtyContainer {
        task: TaskId,
        value: i32,
    },
    /// A collectible of the aggregated subgraph, with a count.
    AggregatedCollectible {
        collectible: CollectibleRef,
        value: i32,
    },
    /// The number of dirty tasks in the aggregated subgraph.
    AggregatedDirtyContainerCount {
        value: i32,
    },
    /// The state of the task as a root of the aggregation graph (transient).
    AggregateRoot {
        value: RootState,
    },
    /// The task is scheduled or running (transient).
    InProgress {
        value: InProgressState,
    },
    /// The content of cell `cell` is being computed (transient).
    InProgressCell {
        cell: CellId,
        value: InProgressCellState,
    },
    /// A collectible of the previous run, to be removed unless emitted again (transient).
    OutdatedCollectible {
        collectible: CollectibleRef,
        value: i32,
    },
    /// An output dependency of the previous run (transient).
    OutdatedOutputDependency {
        target: TaskId,
        value: (),
    },
    /// A cell dependency of the previous run (transient).
    OutdatedCellDependency {
        target: CellRef,
        value: (),
    },
    /// A collectibles dependency of the previous run (transient).
    OutdatedCollectiblesDependency {
        target: CollectiblesRef,
        value: (),
    },
    /// A child of the previous run (transient).
    OutdatedChild {
        task: TaskId,
        value: (),
    },
    /// The error that the task ended with (transient).
    Error {
        value: SharedError,
    },
}

/// The key of an item: its kind and the fields that, with the kind, identify the item.
#[derive(Debug, Clone, Copy, PartialEq, Eq, Structural, Hash)]
pub enum CachedDataItemKey {
    Output {},
    Collectible { collectible: CollectibleRef },
    Dirty {},
    DirtyWhenPersisted {},
    Child { task: TaskId },
    CellData { cell: CellId },
    CellTypeMaxIndex { cell_type: ValueTypeId },
    OutputDependency { target: TaskId },
    CellDependency { target: CellRef },
    CollectiblesDependency { target: CollectiblesRef },
    OutputDependent { task: TaskId },
    CellDependent { cell: CellId, task: TaskId },
    CollectiblesDependent { collectible_type: TraitTypeId, task: TaskId },
    AggregationNumber {},
    Follower { task: TaskId },
    Upper { task: TaskId },
    AggregatedDirtyContainer { task: TaskId },
    AggregatedCollectible { collectible: CollectibleRef },
    AggregatedDirtyContainerCount {},
    AggregateRoot {},
    InProgress {},
    InProgressCell { cell: CellId },
    OutdatedCollectible { collectible: CollectibleRef },
    OutdatedOutputDependency { target: TaskId },
    OutdatedCellDependency { target: CellRef },
    OutdatedCollectiblesDependency { target: CollectiblesRef },
    OutdatedChild { task: TaskId },
    Error {},
}

/// The value of an item.
#[derive(Debug)]
pub enum CachedDataItemValue {
    Output { value: OutputValue },
    Collectible { value: i32 },
    Dirty { value: () },
    DirtyWhenPersisted { value: () },
    Child { value: () },
    CellData { value: TypedSharedReference },
    CellTypeMaxIndex { value: u32 },
    OutputDependency { value: () },
    CellDependency { value: () },
    CollectiblesDependency { value: () },
    OutputDependent { value: () },
    CellDependent { value: () },
    CollectiblesDependent { value: () },
    AggregationNumber { value: AggregationNumber },
    Follower { value: i32 },
    Upper { value: i32 },
    AggregatedDirtyContainer { value: i32 },
    AggregatedCollectible { value: i32 },
    AggregatedDirtyContainerCount { value: i32 },
    AggregateRoot { value: RootState },
    InProgress { value: InProgressState },
    InProgressCell { value: InProgressCellState },
    OutdatedCollectible { value: i32 },
    OutdatedOutputDependency { value: () },
    OutdatedCellDependency { value: () },
    OutdatedCollectiblesDependency { value: () },
    OutdatedChild { value: () },
    Error { value: SharedError },
}

impl Clone for CachedDataItem {
    fn clone(&self) -> (res: Self)
        ensures
            res == *self,
    {
        match self {
            CachedDataItem::Output { value } => CachedDataItem::Output { value: *value },
            CachedDataItem::Collectible { collectible, value } => CachedDataItem::Collectible { collectible: *collectible, value: *value },
            CachedDataItem::Dirty { .. } => CachedDataItem::Dirty { value: () },
            CachedDataItem::DirtyWhenPersisted { .. } => CachedDataItem::DirtyWhenPersisted { value: () },
            CachedDataItem::Child { task, .. } => CachedDataItem::Child { task: *task, value: () },
            CachedDataItem::CellData { cell, value } => CachedDataItem::CellData { cell: *cell, value: *value },
            CachedDataItem::CellTypeMaxIndex { cell_type, value } => CachedDataItem::CellTypeMaxIndex { cell_type: *cell_type, value: *value },
            CachedDataItem::OutputDependency { target, .. } => CachedDataItem::OutputDependency { target: *target, value: () },
            CachedDataItem::CellDependency { target, .. } => CachedDataItem::CellDependency { target: *target, value: () },
            CachedDataItem::CollectiblesDependency { target, .. } => CachedDataItem::CollectiblesDependency { target: *target, value: () },
            CachedDataItem::OutputDependent { task, .. } => CachedDataItem::OutputDependent { task: *task, value: () },
            CachedDataItem::CellDependent { cell, task, .. } => CachedDataItem::CellDependent { cell: *cell, task: *task, value: () },
            CachedDataItem::CollectiblesDependent { collectible_type, task, .. } => CachedDataItem::CollectiblesDependent { collectible_type: *collectible_type, task: *task, value: () },
            CachedDataItem::AggregationNumber { value } => CachedDataItem::AggregationNumber { value: *value },
            CachedDataItem::Follower { task, value } => CachedDataItem::Follower { task: *task, value: *value },
            CachedDataItem::Upper { task, value } => CachedDataItem::Upper { task: *task, value: *value },
            CachedDataItem::AggregatedDirtyContainer { task, value } => CachedDataItem::AggregatedDirtyContainer { task: *task, value: *value },
            CachedDataItem::AggregatedCollectible { collectible, value } => CachedDataItem::AggregatedCollectible { collectible: *collectible, value: *value },
            CachedDataItem::AggregatedDirtyContainerCount { value } => CachedDataItem::AggregatedDirtyContainerCount { value: *value },
            CachedDataItem::AggregateRoot { value } => CachedDataItem::AggregateRoot { value: value.clone() },
            CachedDataItem::InProgress { value } => CachedDataItem::InProgress { value: value.clone() },
            CachedDataItem::InProgressCell { cell, value } => CachedDataItem::InProgressCell { cell: *cell, value: value.clone() },
            CachedDataItem::OutdatedCollectible { collectible, value } => CachedDataItem::OutdatedCollectible { collectible: *collectible, value: *value },
            CachedDataItem::OutdatedOutputDependency { target, .. } => CachedDataItem::OutdatedOutputDependency { target: *target, value: () },
            CachedDataItem::OutdatedCellDependency { target, .. } => CachedDataItem::OutdatedCellDependency { target: *target, value: () },
            CachedDataItem::OutdatedCollectiblesDependency { target, .. } => CachedDataItem::OutdatedCollectiblesDependency { target: *target, value: () },
            CachedDataItem::OutdatedChild { task, .. } => CachedDataItem::OutdatedChild { task: *task, value: () },
            CachedDataItem::Error { value } => CachedDataItem::Error { value: value.clone() },
        }
    }
}

impl Clone for CachedDataItemValue {
    fn clone(&self) -> (res: Self)
        ensures
            res == *self,
    {
        match self {
            CachedDataItemValue::Output { value } => CachedDataItemValue::Output { value: *value },
            CachedDataItemValue::Collectible { value } => CachedDataItemValue::Collectible { value: *value },
            CachedDataItemValue::Dirty { .. } => CachedDataItemValue::Dirty { value: () },
            CachedDataItemValue::DirtyWhenPersisted { .. } => CachedDataItemValue::DirtyWhenPersisted { value: () },
            CachedDataItemValue::Child { .. } => CachedDataItemValue::Child { value: () },
            CachedDataItemValue::CellData { value } => CachedDataItemValue::CellData { value: *value },
            CachedDataItemValue::CellTypeMaxIndex { value } => CachedDataItemValue::CellTypeMaxIndex { value: *value },
            CachedDataItemValue::OutputDependency { .. } => CachedDataItemValue::OutputDependency { value: () },
            CachedDataItemValue::CellDependency { .. } => CachedDataItemValue::CellDependency { value: () },
            CachedDataItemValue::CollectiblesDependency { .. } => CachedDataItemValue::CollectiblesDependency { value: () },
            CachedDataItemValue::OutputDependent { .. } => CachedDataItemValue::OutputDependent { value: () },
            CachedDataItemValue::CellDependent { .. } => CachedDataItemValue::CellDependent { value: () },
            CachedDataItemValue::CollectiblesDependent { .. } => CachedDataItemValue::CollectiblesDependent { value: () },
            CachedDataItemValue::AggregationNumber { value } => CachedDataItemValue::AggregationNumber { value: *value },
            CachedDataItemValue::Follower { value } => CachedDataItemValue::Follower { value: *value },
            CachedDataItemValue::Upper { value } => CachedDataItemValue::Upper { value: *value },
            CachedDataItemValue::AggregatedDirtyContainer { value } => CachedDataItemValue::AggregatedDirtyContainer { value: *value },
            CachedDataItemValue::AggregatedCollectible { value } => CachedDataItemValue::AggregatedCollectible { value: *value },
            CachedDataItemValue::AggregatedDirtyContainerCount { value } => CachedDataItemValue::AggregatedDirtyContainerCount { value: *value },
            CachedDataItemValue::AggregateRoot { value } => CachedDataItemValue::AggregateRoot { value: value.clone() },
            CachedDataItemValue::InProgress { value } => CachedDataItemValue::InProgress { value: value.clone() },
            CachedDataItemValue::InProgressCell { value } => CachedDataItemValue::InProgressCell { value: value.clone() },
            CachedDataItemValue::OutdatedCollectible { value } => CachedDataItemValue::OutdatedCollectible { value: *value },
            CachedDataItemValue::OutdatedOutputDependency { .. } => CachedDataItemValue::OutdatedOutputDependency { value: () },
            CachedDataItemValue::OutdatedCellDependency { .. } => CachedDataItemValue::OutdatedCellDependency { value: () },
            CachedDataItemValue::OutdatedCollectiblesDependency { .. } => CachedDataItemValue::OutdatedCollectiblesDependency { value: () },
            CachedDataItemValue::OutdatedChild { .. } => CachedDataItemValue::OutdatedChild { value: () },
            CachedDataItemValue::Error { value } => CachedDataItemValue::Error { value: value.clone() },
        }
    }
}

impl CachedDataItemKey {
    /// The position of the key's kind among the kinds of items.
    pub open spec fn kind_index(self) -> nat {
        match self {
            CachedDataItemKey::Output { .. } => 0,
            CachedDataItemKey::Collectible { .. } => 1,
            CachedDataItemKey::Dirty { .. } => 2,
            CachedDataItemKey::DirtyWhenPersisted { .. } => 3,
            CachedDataItemKey::Child { .. } => 4,
            CachedDataItemKey::CellData { .. } => 5,
            CachedDataItemKey::CellTypeMaxIndex { .. } => 6,
            CachedDataItemKey::OutputDependency { .. } => 7,
            CachedDataItemKey::CellDependency { .. } => 8,
            CachedDataItemKey::CollectiblesDependency { .. } => 9,
            CachedDataItemKey::OutputDependent { .. } => 10,
            CachedDataItemKey::CellDependent { .. } => 11,
            CachedDataItemKey::CollectiblesDependent { .. } => 12,
            CachedDataItemKey::AggregationNumber { .. } => 13,
            CachedDataItemKey::Follower { .. } => 14,
            CachedDataItemKey::Upper { .. } => 15,
            CachedDataItemKey::AggregatedDirtyContainer { .. } => 16,
            CachedDataItemKey::AggregatedCollectible { .. } => 17,
            CachedDataItemKey::AggregatedDirtyContainerCount { .. } => 18,
            CachedDataItemKey::AggregateRoot { .. } => 19,
            CachedDataItemKey::InProgress { .. } => 20,
            CachedDataItemKey::InProgressCell { .. } => 21,
            CachedDataItemKey::OutdatedCollectible { .. } => 22,
            CachedDataItemKey::OutdatedOutputDependency { .. } => 23,
            CachedDataItemKey::OutdatedCellDependency { .. } => 24,
            CachedDataItemKey::OutdatedCollectiblesDependency { .. } => 25,
            CachedDataItemKey::OutdatedChild { .. } => 26,
            CachedDataItemKey::Error { .. } => 27,
        }
    }
}

impl CachedDataItemValue {
    /// The position of the value's kind among the kinds of items.
    pub open spec fn kind_index(self) -> nat {
        match self {
            CachedDataItemValue::Output { .. } => 0,
            CachedDataItemValue::Collectible { .. } => 1,
            CachedDataItemValue::Dirty { .. } => 2,
            CachedDataItemValue::DirtyWhenPersisted { .. } => 3,
            CachedDataItemValue::Child { .. } => 4,
            CachedDataItemValue::CellData { .. } => 5,
            CachedDataItemValue::CellTypeMaxIndex { .. } => 6,
            CachedDataItemValue::OutputDependency { .. } => 7,
            CachedDataItemValue::CellDependency { .. } => 8,
            CachedDataItemValue::CollectiblesDependency { .. } => 9,
            CachedDataItemValue::OutputDependent { .. } => 10,
            CachedDataItemValue::CellDependent { .. } => 11,
            CachedDataItemValue::CollectiblesDependent { .. } => 12,
            CachedDataItemValue::AggregationNumber { .. } => 13,
            CachedDataItemValue::Follower { .. } => 14,
            CachedDataItemValue::Upper { .. } => 15,
            CachedDataItemValue::AggregatedDirtyContainer { .. } => 16,
            CachedDataItemValue::AggregatedCollectible { .. } => 17,
            CachedDataItemValue::AggregatedDirtyContainerCount { .. } => 18,
            CachedDataItemValue::AggregateRoot { .. } => 19,
            CachedDataItemValue::InProgress { .. } => 20,
            CachedDataItemValue::InProgressCell { .. } => 21,
            CachedDataItemValue::OutdatedCollectible { .. } => 22,
            CachedDataItemValue::OutdatedOutputDependency { .. } => 23,
            CachedDataItemValue::OutdatedCellDependency { .. } => 24,
            CachedDataItemValue::OutdatedCollectiblesDependency { .. } => 25,
            CachedDataItemValue::OutdatedChild { .. } => 26,
            CachedDataItemValue::Error { .. } => 27,
        }
    }
}

impl CachedDataItem {
    /// The key of the item.
    pub open spec fn spec_key(self) -> CachedDataItemKey {
        match self {
            CachedDataItem::Output { .. } => CachedDataItemKey::Output {},
            CachedDataItem::Collectible { collectible, .. } => CachedDataItemKey::Collectible { collectible },
            CachedDataItem::Dirty { .. } => CachedDataItemKey::Dirty {},
            CachedDataItem::DirtyWhenPersisted { .. } => CachedDataItemKey::DirtyWhenPersisted {},
            CachedDataItem::Child { task, .. } => CachedDataItemKey::Child { task },
            CachedDataItem::CellData { cell, .. } => CachedDataItemKey::CellData { cell },
            CachedDataItem::CellTypeMaxIndex { cell_type, .. } => CachedDataItemKey::CellTypeMaxIndex { cell_type },
            CachedDataItem::OutputDependency { target, .. } => CachedDataItemKey::OutputDependency { target },
            CachedDataItem::CellDependency { target, .. } => CachedDataItemKey::CellDependency { target },
            CachedDataItem::CollectiblesDependency { target, .. } => CachedDataItemKey::CollectiblesDependency { target },
            CachedDataItem::OutputDependent { task, .. } => CachedDataItemKey::OutputDependent { task },
            CachedDataItem::CellDependent { cell, task, .. } => CachedDataItemKey::CellDependent { cell, task },
            CachedDataItem::CollectiblesDependent { collectible_type, task, .. } => CachedDataItemKey::CollectiblesDependent { collectible_type, task },
            CachedDataItem::AggregationNumber { .. } => CachedDataItemKey::AggregationNumber {},
            CachedDataItem::Follower { task, .. } => CachedDataItemKey::Follower { task },
            CachedDataItem::Upper { task, .. } => CachedDataItemKey::Upper { task },
            CachedDataItem::AggregatedDirtyContainer { task, .. } => CachedDataItemKey::AggregatedDirtyContainer { task },
            CachedDataItem::AggregatedCollectible { collectible, .. } => CachedDataItemKey::AggregatedCollectible { collectible },
            CachedDataItem::AggregatedDirtyContainerCount { .. } => CachedDataItemKey::AggregatedDirtyContainerCount {},
            CachedDataItem::AggregateRoot { .. } => CachedDataItemKey::AggregateRoot {},
            CachedDataItem::InProgress { .. } => CachedDataItemKey::InProgress {},
            CachedDataItem::InProgressCell { cell, .. } => CachedDataItemKey::InProgressCell { cell },
            CachedDataItem::OutdatedCollectible { collectible, .. } => CachedDataItemKey::OutdatedCollectible { collectible },
            CachedDataItem::OutdatedOutputDependency { target, .. } => CachedDataItemKey::OutdatedOutputDependency { target },
            CachedDataItem::OutdatedCellDependency { target, .. } => CachedDataItemKey::OutdatedCellDependency { target },
            CachedDataItem::OutdatedCollectiblesDependency { target, .. } => CachedDataItemKey::OutdatedCollectiblesDependency { target },
            CachedDataItem::OutdatedChild { task, .. } => CachedDataItemKey::OutdatedChild { task },
            CachedDataItem::Error { .. } => CachedDataItemKey::Error {},
        }
    }

    /// The value of the item.
    pub open spec fn spec_value(self) -> CachedDataItemValue {
        match self {
            CachedDataItem::Output { value, .. } => CachedDataItemValue::Output { value },
            CachedDataItem::Collectible { value, .. } => CachedDataItemValue::Collectible { value },
            CachedDataItem::Dirty { value, .. } => CachedDataItemValue::Dirty { value },
            CachedDataItem::DirtyWhenPersisted { value, .. } => CachedDataItemValue::DirtyWhenPersisted { value },
            CachedDataItem::Child { value, .. } => CachedDataItemValue::Child { value },
            CachedDataItem::CellData { value, .. } => CachedDataItemValue::CellData { value },
            CachedDataItem::CellTypeMaxIndex { value, .. } => CachedDataItemValue::CellTypeMaxIndex { value },
            CachedDataItem::OutputDependency { value, .. } => CachedDataItemValue::OutputDependency { value },
            CachedDataItem::CellDependency { value, .. } => CachedDataItemValue::CellDependency { value },
            CachedDataItem::CollectiblesDependency { value, .. } => CachedDataItemValue::CollectiblesDependency { value },
            CachedDataItem::OutputDependent { value, .. } => CachedDataItemValue::OutputDependent { value },
            CachedDataItem::CellDependent { value, .. } => CachedDataItemValue::CellDependent { value },
            CachedDataItem::CollectiblesDependent { value, .. } => CachedDataItemValue::CollectiblesDependent { value },
            CachedDataItem::AggregationNumber { value, .. } => CachedDataItemValue::AggregationNumber { value },
            CachedDataItem::Follower { value, .. } => CachedDataItemValue::Follower { value },
            CachedDataItem::Upper { value, .. } => CachedDataItemValue::Upper { value },
            CachedDataItem::AggregatedDirtyContainer { value, .. } => CachedDataItemValue::AggregatedDirtyContainer { value },
            CachedDataItem::AggregatedCollectible { value, .. } => CachedDataItemValue::AggregatedCollectible { value },
            CachedDataItem::AggregatedDirtyContainerCount { value, .. } => CachedDataItemValue::AggregatedDirtyContainerCount { value },
            CachedDataItem::AggregateRoot { value, .. } => CachedDataItemValue::AggregateRoot { value },
            CachedDataItem::InProgress { value, .. } => CachedDataItemValue::InProgress { value },
            CachedDataItem::InProgressCell { value, .. } => CachedDataItemValue::InProgressCell { value },
            CachedDataItem::OutdatedCollectible { value, .. } => CachedDataItemValue::OutdatedCollectible { value },
            CachedDataItem::OutdatedOutputDependency { value, .. } => CachedDataItemValue::OutdatedOutputDependency { value },
            CachedDataItem::OutdatedCellDependency { value, .. } => CachedDataItemValue::OutdatedCellDependency { value },
            CachedDataItem::OutdatedCollectiblesDependency { value, .. } => CachedDataItemValue::OutdatedCollectiblesDependency { value },
            CachedDataItem::OutdatedChild { value, .. } => CachedDataItemValue::OutdatedChild { value },
            CachedDataItem::Error { value, .. } => CachedDataItemValue::Error { value },
        }
    }

    /// The item with key `key` and value `value`, where both are of the same kind.
    pub open spec fn spec_from_key_and_value(
        key: CachedDataItemKey,
        value: CachedDataItemValue,
    ) -> CachedDataItem
        recommends
            key.kind_index() == value.kind_index(),
    {
        match (key, value) {
            (CachedDataItemKey::Output {}, CachedDataItemValue::Output { value }) => CachedDataItem::Output { value },
            (CachedDataItemKey::Collectible { collectible }, CachedDataItemValue::Collectible { value }) => CachedDataItem::Collectible { collectible, value },
            (CachedDataItemKey::Dirty {}, CachedDataItemValue::Dirty { value }) => CachedDataItem::Dirty { value },
            (CachedDataItemKey::DirtyWhenPersisted {}, CachedDataItemValue::DirtyWhenPersisted { value }) => CachedDataItem::DirtyWhenPersisted { value },
            (CachedDataItemKey::Child { task }, CachedDataItemValue::Child { value }) => CachedDataItem::Child { task, value },
            (CachedDataItemKey::CellData { cell }, CachedDataItemValue::CellData { value }) => CachedDataItem::CellData { cell, value },
            (CachedDataItemKey::CellTypeMaxIndex { cell_type }, CachedDataItemValue::CellTypeMaxIndex { value }) => CachedDataItem::CellTypeMaxIndex { cell_type, value },
            (CachedDataItemKey::OutputDependency { target }, CachedDataItemValue::OutputDependency { value }) => CachedDataItem::OutputDependency { target, value },
            (CachedDataItemKey::CellDependency { target }, CachedDataItemValue::CellDependency { value }) => CachedDataItem::CellDependency { target, value },
            (CachedDataItemKey::CollectiblesDependency { target }, CachedDataItemValue::CollectiblesDependency { value }) => CachedDataItem::CollectiblesDependency { target, value },
            (CachedDataItemKey::OutputDependent { task }, CachedDataItemValue::OutputDependent { value }) => CachedDataItem::OutputDependent { task, value },
            (CachedDataItemKey::CellDependent { cell, task }, CachedDataItemValue::CellDependent { value }) => CachedDataItem::CellDependent { cell, task, value },
            (CachedDataItemKey::CollectiblesDependent { collectible_type, task }, CachedDataItemValue::CollectiblesDependent { value }) => CachedDataItem::CollectiblesDependent { collectible_type, task, value },
            (CachedDataItemKey::AggregationNumber {}, CachedDataItemValue::AggregationNumber { value }) => CachedDataItem::AggregationNumber { value },
            (CachedDataItemKey::Follower { task }, CachedDataItemValue::Follower { value }) => CachedDataItem::Follower { task, value },
            (CachedDataItemKey::Upper { task }, CachedDataItemValue::Upper { value }) => CachedDataItem::Upper { task, value },
            (CachedDataItemKey::AggregatedDirtyContainer { task }, CachedDataItemValue::AggregatedDirtyContainer { value }) => CachedDataItem::AggregatedDirtyContainer { task, value },
            (CachedDataItemKey::AggregatedCollectible { collectible }, CachedDataItemValue::AggregatedCollectible { value }) => CachedDataItem::AggregatedCollectible { collectible, value },
            (CachedDataItemKey::AggregatedDirtyContainerCount {}, CachedDataItemValue::AggregatedDirtyContainerCount { value }) => CachedDataItem::AggregatedDirtyContainerCount { value },
            (CachedDataItemKey::AggregateRoot {}, CachedDataItemValue::AggregateRoot { value }) => CachedDataItem::AggregateRoot { value },
            (CachedDataItemKey::InProgress {}, CachedDataItemValue::InProgress { value }) => CachedDataItem::InProgress { value },
            (CachedDataItemKey::InProgressCell { cell }, CachedDataItemValue::InProgressCell { value }) => CachedDataItem::InProgressCell { cell, value },
            (CachedDataItemKey::OutdatedCollectible { collectible }, CachedDataItemValue::OutdatedCollectible { value }) => CachedDataItem::OutdatedCollectible { collectible, value },
            (CachedDataItemKey::OutdatedOutputDependency { target }, CachedDataItemValue::OutdatedOutputDependency { value }) => CachedDataItem::OutdatedOutputDependency { target, value },
            (CachedDataItemKey::OutdatedCellDependency { target }, CachedDataItemValue::OutdatedCellDependency { value }) => CachedDataItem::OutdatedCellDependency { target, value },
            (CachedDataItemKey::OutdatedCollectiblesDependency { target }, CachedDataItemValue::OutdatedCollectiblesDependency { value }) => CachedDataItem::OutdatedCollectiblesDependency { target, value },
            (CachedDataItemKey::OutdatedChild { task }, CachedDataItemValue::OutdatedChild { value }) => CachedDataItem::OutdatedChild { task, value },
            (CachedDataItemKey::Error {}, CachedDataItemValue::Error { value }) => CachedDataItem::Error { value },
            _ => arbitrary(),
        }
    }

    /// The key of the item.
    pub fn key(&self) -> (res: CachedDataItemKey)
        ensures
            res == self.spec_key(),
    {
        match self {
            CachedDataItem::Output { .. } => CachedDataItemKey::Output {},
            CachedDataItem::Collectible { collectible, .. } => CachedDataItemKey::Collectible { collectible: *collectible },
            CachedDataItem::Dirty { .. } => CachedDataItemKey::Dirty {},
            CachedDataItem::DirtyWhenPersisted { .. } => CachedDataItemKey::DirtyWhenPersisted {},
            CachedDataItem::Child { task, .. } => CachedDataItemKey::Child { task: *task },
            CachedDataItem::CellData { cell, .. } => CachedDataItemKey::CellData { cell: *cell },
            CachedDataItem::CellTypeMaxIndex { cell_type, .. } => CachedDataItemKey::CellTypeMaxIndex { cell_type: *cell_type },
            CachedDataItem::OutputDependency { target, .. } => CachedDataItemKey::OutputDependency { target: *target },
            CachedDataItem::CellDependency { target, .. } => CachedDataItemKey::CellDependency { target: *target },
            CachedDataItem::CollectiblesDependency { target, .. } => CachedDataItemKey::CollectiblesDependency { target: *target },
            CachedDataItem::OutputDependent { task, .. } => CachedDataItemKey::OutputDependent { task: *task },
            CachedDataItem::CellDependent { cell, task, .. } => CachedDataItemKey::CellDependent { cell: *cell, task: *task },
            CachedDataItem::CollectiblesDependent { collectible_type, task, .. } => CachedDataItemKey::CollectiblesDependent { collectible_type: *collectible_type, task: *task },
            CachedDataItem::AggregationNumber { .. } => CachedDataItemKey::AggregationNumber {},
            CachedDataItem::Follower { task, .. } => CachedDataItemKey::Follower { task: *task },
            CachedDataItem::Upper { task, .. } => CachedDataItemKey::Upper { task: *task },
            CachedDataItem::AggregatedDirtyContainer { task, .. } => CachedDataItemKey::AggregatedDirtyContainer { task: *task },
            CachedDataItem::AggregatedCollectible { collectible, .. } => CachedDataItemKey::AggregatedCollectible { collectible: *collectible },
            CachedDataItem::AggregatedDirtyContainerCount { .. } => CachedDataItemKey::AggregatedDirtyContainerCount {},
            CachedDataItem::AggregateRoot { .. } => CachedDataItemKey::AggregateRoot {},
            CachedDataItem::InProgress { .. } => CachedDataItemKey::InProgress {},
            CachedDataItem::InProgressCell { cell, .. } => CachedDataItemKey::InProgressCell { cell: *cell },
            CachedDataItem::OutdatedCollectible { collectible, .. } => CachedDataItemKey::OutdatedCollectible { collectible: *collectible },
            CachedDataItem::OutdatedOutputDependency { target, .. } => CachedDataItemKey::OutdatedOutputDependency { target: *target },
            CachedDataItem::OutdatedCellDependency { target, .. } => CachedDataItemKey::OutdatedCellDependency { target: *target },
            CachedDataItem::OutdatedCollectiblesDependency { target, .. } => CachedDataItemKey::OutdatedCollectiblesDependency { target: *target },
            CachedDataItem::OutdatedChild { task, .. } => CachedDataItemKey::OutdatedChild { task: *task },
            CachedDataItem::Error { .. } => CachedDataItemKey::Error {},
        }
    }

    /// Splits the item into its key and its value.
    pub fn into_key_and_value(self) -> (res: (CachedDataItemKey, CachedDataItemValue))
        ensures
            res.0 == self.spec_key(),
            res.1 == self.spec_value(),
    {
        match self {
            CachedDataItem::Output { value } => (CachedDataItemKey::Output {}, CachedDataItemValue::Output { value }),
            CachedDataItem::Collectible { collectible, value } => (CachedDataItemKey::Collectible { collectible }, CachedDataItemValue::Collectible { value }),
            CachedDataItem::Dirty { value } => (CachedDataItemKey::Dirty {}, CachedDataItemValue::Dirty { value }),
            CachedDataItem::DirtyWhenPersisted { value } => (CachedDataItemKey::DirtyWhenPersisted {}, CachedDataItemValue::DirtyWhenPersisted { value }),
            CachedDataItem::Child { task, value } => (CachedDataItemKey::Child { task }, CachedDataItemValue::Child { value }),
            CachedDataItem::CellData { cell, value } => (CachedDataItemKey::CellData { cell }, CachedDataItemValue::CellData { value }),
            CachedDataItem::CellTypeMaxIndex { cell_type, value } => (CachedDataItemKey::CellTypeMaxIndex { cell_type }, CachedDataItemValue::CellTypeMaxIndex { value }),
            CachedDataItem::OutputDependency { target, value } => (CachedDataItemKey::OutputDependency { target }, CachedDataItemValue::OutputDependency { value }),
            CachedDataItem::CellDependency { target, value } => (CachedDataItemKey::CellDependency { target }, CachedDataItemValue::CellDependency { value }),
            CachedDataItem::CollectiblesDependency { target, value } => (CachedDataItemKey::CollectiblesDependency { target }, CachedDataItemValue::CollectiblesDependency { value }),
            CachedDataItem::OutputDependent { task, value } => (CachedDataItemKey::OutputDependent { task }, CachedDataItemValue::OutputDependent { value }),
            CachedDataItem::CellDependent { cell, task, value } => (CachedDataItemKey::CellDependent { cell, task }, CachedDataItemValue::CellDependent { value }),
            CachedDataItem::CollectiblesDependent { collectible_type, task, value } => (CachedDataItemKey::CollectiblesDependent { collectible_type, task }, CachedDataItemValue::CollectiblesDependent { value }),
            CachedDataItem::AggregationNumber { value } => (CachedDataItemKey::AggregationNumber {}, CachedDataItemValue::AggregationNumber { value }),
            CachedDataItem::Follower { task, value } => (CachedDataItemKey::Follower { task }, CachedDataItemValue::Follower { value }),
            CachedDataItem::Upper { task, value } => (CachedDataItemKey::Upper { task }, CachedDataItemValue::Upper { value }),
            CachedDataItem::AggregatedDirtyContainer { task, value } => (CachedDataItemKey::AggregatedDirtyContainer { task }, CachedDataItemValue::AggregatedDirtyContainer { value }),
            CachedDataItem::AggregatedCollectible { collectible, value } => (CachedDataItemKey::AggregatedCollectible { collectible }, CachedDataItemValue::AggregatedCollectible { value }),
            CachedDataItem::AggregatedDirtyContainerCount { value } => (CachedDataItemKey::AggregatedDirtyContainerCount {}, CachedDataItemValue::AggregatedDirtyContainerCount { value }),
            CachedDataItem::AggregateRoot { value } => (CachedDataItemKey::AggregateRoot {}, CachedDataItemValue::AggregateRoot { value }),
            CachedDataItem::InProgress { value } => (CachedDataItemKey::InProgress {}, CachedDataItemValue::InProgress { value }),
            CachedDataItem::InProgressCell { cell, value } => (CachedDataItemKey::InProgressCell { cell }, CachedDataItemValue::InProgressCell { value }),
            CachedDataItem::OutdatedCollectible { collectible, value } => (CachedDataItemKey::OutdatedCollectible { collectible }, CachedDataItemValue::OutdatedCollectible { value }),
            CachedDataItem::OutdatedOutputDependency { target, value } => (CachedDataItemKey::OutdatedOutputDependency { target }, CachedDataItemValue::OutdatedOutputDependency { value }),
            CachedDataItem::OutdatedCellDependency { target, value } => (CachedDataItemKey::OutdatedCellDependency { target }, CachedDataItemValue::OutdatedCellDependency { value }),
            CachedDataItem::OutdatedCollectiblesDependency { target, value } => (CachedDataItemKey::OutdatedCollectiblesDependency { target }, CachedDataItemValue::OutdatedCollectiblesDependency { value }),
            CachedDataItem::OutdatedChild { task, value } => (CachedDataItemKey::OutdatedChild { task }, CachedDataItemValue::OutdatedChild { value }),
            CachedDataItem::Error { value } => (CachedDataItemKey::Error {}, CachedDataItemValue::Error { value }),
        }
    }

    /// Joins a key and a value of the same kind into an item.
    pub fn from_key_and_value(key: CachedDataItemKey, value: CachedDataItemValue) -> (res: Self)
        requires
            key.kind_index() == value.kind_index(),
        ensures
            res == Self::spec_from_key_and_value(key, value),
    {
        match (key, value) {
            (CachedDataItemKey::Output {}, CachedDataItemValue::Output { value }) => CachedDataItem::Output { value },
            (CachedDataItemKey::Collectible { collectible }, CachedDataItemValue::Collectible { value }) => CachedDataItem::Collectible { collectible, value },
            (CachedDataItemKey::Dirty {}, CachedDataItemValue::Dirty { value }) => CachedDataItem::Dirty { value },
            (CachedDataItemKey::DirtyWhenPersisted {}, CachedDataItemValue::DirtyWhenPersisted { value }) => CachedDataItem::DirtyWhenPersisted { value },
            (CachedDataItemKey::Child { task }, CachedDataItemValue::Child { value }) => CachedDataItem::Child { task, value },
            (CachedDataItemKey::CellData { cell }, CachedDataItemValue::CellData { value }) => CachedDataItem::CellData { cell, value },
            (CachedDataItemKey::CellTypeMaxIndex { cell_type }, CachedDataItemValue::CellTypeMaxIndex { value }) => CachedDataItem::CellTypeMaxIndex { cell_type, value },
            (CachedDataItemKey::OutputDependency { target }, CachedDataItemValue::OutputDependency { value }) => CachedDataItem::OutputDependency { target, value },
            (CachedDataItemKey::CellDependency { target }, CachedDataItemValue::CellDependency { value }) => CachedDataItem::CellDependency { target, value },
            (CachedDataItemKey::CollectiblesDependency { target }, CachedDataItemValue::CollectiblesDependency { value }) => CachedDataItem::CollectiblesDependency { target, value },
            (CachedDataItemKey::OutputDependent { task }, CachedDataItemValue::OutputDependent { value }) => CachedDataItem::OutputDependent { task, value },
            (CachedDataItemKey::CellDependent { cell, task }, CachedDataItemValue::CellDependent { value }) => CachedDataItem::CellDependent { cell, task, value },
            (CachedDataItemKey::CollectiblesDependent { collectible_type, task }, CachedDataItemValue::CollectiblesDependent { value }) => CachedDataItem::CollectiblesDependent { collectible_type, task, value },
            (CachedDataItemKey::AggregationNumber {}, CachedDataItemValue::AggregationNumber { value }) => CachedDataItem::AggregationNumber { value },
            (CachedDataItemKey::Follower { task }, CachedDataItemValue::Follower { value }) => CachedDataItem::Follower { task, value },
            (CachedDataItemKey::Upper { task }, CachedDataItemValue::Upper { value }) => CachedDataItem::Upper { task, value },
            (CachedDataItemKey::AggregatedDirtyContainer { task }, CachedDataItemValue::AggregatedDirtyContainer { value }) => CachedDataItem::AggregatedDirtyContainer { task, value },
            (CachedDataItemKey::AggregatedCollectible { collectible }, CachedDataItemValue::AggregatedCollectible { value }) => CachedDataItem::AggregatedCollectible { collectible, value },
            (CachedDataItemKey::AggregatedDirtyContainerCount {}, CachedDataItemValue::AggregatedDirtyContainerCount { value }) => CachedDataItem::AggregatedDirtyContainerCount { value },
            (CachedDataItemKey::AggregateRoot {}, CachedDataItemValue::AggregateRoot { value }) => CachedDataItem::AggregateRoot { value },
            (CachedDataItemKey::InProgress {}, CachedDataItemValue::InProgress { value }) => CachedDataItem::InProgress { value },
            (CachedDataItemKey::InProgressCell { cell }, CachedDataItemValue::InProgressCell { value }) => CachedDataItem::InProgressCell { cell, value },
            (CachedDataItemKey::OutdatedCollectible { collectible }, CachedDataItemValue::OutdatedCollectible { value }) => CachedDataItem::OutdatedCollectible { collectible, value },
            (CachedDataItemKey::OutdatedOutputDependency { target }, CachedDataItemValue::OutdatedOutputDependency { value }) => CachedDataItem::OutdatedOutputDependency { target, value },
            (CachedDataItemKey::OutdatedCellDependency { target }, CachedDataItemValue::OutdatedCellDependency { value }) => CachedDataItem::OutdatedCellDependency { target, value },
            (CachedDataItemKey::OutdatedCollectiblesDependency { target }, CachedDataItemValue::OutdatedCollectiblesDependency { value }) => CachedDataItem::OutdatedCollectiblesDependency { target, value },
            (CachedDataItemKey::OutdatedChild { task }, CachedDataItemValue::OutdatedChild { value }) => CachedDataItem::OutdatedChild { task, value },
            (CachedDataItemKey::Error {}, CachedDataItemValue::Error { value }) => CachedDataItem::Error { value },
            _ => {
                proof {
                    assert(false);
                }
                CachedDataItem::Dirty { value: () }
            },
        }
    }
}

} // verus!
