//! What the keys of items say: whether an item is persisted, in which category of a task's
//! data it is stored, and which index it is found by.

use vstd::prelude::*;
use crate::ids::TaskId;
use crate::item::CachedDataItemKey;

verus! {

/// The two parts of a task's data, stored and restored apart.
#[derive(Debug, Clone, Copy, PartialEq, Eq, Structural, Hash)]
pub enum TaskDataCategory {
    /// The task's place in the aggregation graph and its dirtiness.
    Meta,
    /// Everything else: output, cells, children, dependencies and dependents.
    Data,
}

/// The indexes by which items of a task are found: items of the kinds that share an index are
/// kept together.
#[derive(Debug, Clone, Copy, PartialEq, Eq, Structural, Hash)]
pub enum CachedDataItemIndex {
    Children,
    Collectibles,
    Follower,
    Upper,
    AggregatedDirtyContainer,
    AggregatedCollectible,
    CellData,
    CellTypeMaxIndex,
    CellDependent,
    OutputDependent,
    CollectiblesDependent,
    Dependencies,
}

/// Values that are filed under an index.
pub trait Indexed {
    type Index: Clone + PartialEq + Eq + std::hash::Hash;

    /// The index under which the value is filed.
    fn index(&self) -> Self::Index;
}

impl CachedDataItemKey {
    /// Whether the key's kind is transient: items of these kinds live only in this process.
    pub open spec fn is_transient_kind(self) -> bool {
        ||| self is AggregateRoot
        ||| self is InProgress
        ||| self is InProgressCell
        ||| self is OutdatedCollectible
        ||| self is OutdatedOutputDependency
        ||| self is OutdatedCellDependency
        ||| self is OutdatedCollectiblesDependency
        ||| self is OutdatedChild
        ||| self is Error
    }

    /// The task that the key refers to, where it refers to one.
    pub open spec fn referenced_task(self) -> Option<TaskId> {
        match self {
            CachedDataItemKey::Collectible { collectible } => Some(collectible.cell.task),
            CachedDataItemKey::AggregatedCollectible { collectible } => Some(collectible.cell.task),
            CachedDataItemKey::OutdatedCollectible { collectible } => Some(collectible.cell.task),
            CachedDataItemKey::Child { task } => Some(task),
            CachedDataItemKey::OutdatedChild { task } => Some(task),
            CachedDataItemKey::OutputDependent { task } => Some(task),
            CachedDataItemKey::CellDependent { task, .. } => Some(task),
            CachedDataItemKey::CollectiblesDependent { task, .. } => Some(task),
            CachedDataItemKey::Follower { task } => Some(task),
            CachedDataItemKey::Upper { task } => Some(task),
            CachedDataItemKey::AggregatedDirtyContainer { task } => Some(task),
            CachedDataItemKey::OutputDependency { target } => Some(target),
            CachedDataItemKey::OutdatedOutputDependency { target } => Some(target),
            CachedDataItemKey::CellDependency { target } => Some(target.task),
            CachedDataItemKey::OutdatedCellDependency { target } => Some(target.task),
            CachedDataItemKey::CollectiblesDependency { target } => Some(target.task),
            CachedDataItemKey::OutdatedCollectiblesDependency { target } => Some(target.task),
            _ => None,
        }
    }

    /// Whether items with this key are written to persistent storage: the kind is not
    /// transient, and the task that the key refers to, if any, is not transient.
    pub open spec fn spec_is_persistent(self) -> bool {
        &&& !self.is_transient_kind()
        &&& match self.referenced_task() {
            Some(task) => !task.spec_is_transient(),
            None => true,
        }
    }

    /// The category of a task's data in which items with this key are stored: the task's
    /// aggregation state and dirtiness are meta data, all else is data.
    pub open spec fn spec_category(self) -> TaskDataCategory {
        if self is Dirty
            || self is DirtyWhenPersisted
            || self is AggregationNumber
            || self is Follower
            || self is Upper
            || self is AggregatedDirtyContainer
            || self is AggregatedCollectible
            || self is AggregatedDirtyContainerCount
            || self is AggregateRoot {
            TaskDataCategory::Meta
        } else {
            TaskDataCategory::Data
        }
    }

    /// The index under which items with this key are filed, if any.
    pub open spec fn spec_index(self) -> Option<CachedDataItemIndex> {
        match self {
            CachedDataItemKey::Collectible { .. } => Some(CachedDataItemIndex::Collectibles),
            CachedDataItemKey::Child { .. } => Some(CachedDataItemIndex::Children),
            CachedDataItemKey::CellData { .. } => Some(CachedDataItemIndex::CellData),
            CachedDataItemKey::CellTypeMaxIndex { .. } => Some(CachedDataItemIndex::CellTypeMaxIndex),
            CachedDataItemKey::OutputDependency { .. } => Some(CachedDataItemIndex::Dependencies),
            CachedDataItemKey::CellDependency { .. } => Some(CachedDataItemIndex::Dependencies),
            CachedDataItemKey::CollectiblesDependency { .. } => Some(CachedDataItemIndex::Dependencies),
            CachedDataItemKey::OutputDependent { .. } => Some(CachedDataItemIndex::OutputDependent),
            CachedDataItemKey::CellDependent { .. } => Some(CachedDataItemIndex::CellDependent),
            CachedDataItemKey::Follower { .. } => Some(CachedDataItemIndex::Follower),
            CachedDataItemKey::Upper { .. } => Some(CachedDataItemIndex::Upper),
            CachedDataItemKey::AggregatedDirtyContainer { .. } => Some(CachedDataItemIndex::AggregatedDirtyContainer),
            CachedDataItemKey::AggregatedCollectible { .. } => Some(CachedDataItemIndex::AggregatedCollectible),
            CachedDataItemKey::OutdatedCollectible { .. } => Some(CachedDataItemIndex::Collectibles),
            CachedDataItemKey::OutdatedOutputDependency { .. } => Some(CachedDataItemIndex::Dependencies),
            CachedDataItemKey::OutdatedCellDependency { .. } => Some(CachedDataItemIndex::Dependencies),
            CachedDataItemKey::OutdatedCollectiblesDependency { .. } => Some(CachedDataItemIndex::Dependencies),
            CachedDataItemKey::OutdatedChild { .. } => Some(CachedDataItemIndex::Children),
            _ => None,
        }
    }

    /// The key of the outdated copy that a new run of the task keeps of an item with this
    /// key, for the kinds that have one.
    pub open spec fn outdated_counterpart(self) -> Option<CachedDataItemKey> {
        match self {
            CachedDataItemKey::Child { task } => Some(CachedDataItemKey::OutdatedChild { task }),
            CachedDataItemKey::Collectible { collectible } => Some(
                CachedDataItemKey::OutdatedCollectible { collectible },
            ),
            CachedDataItemKey::OutputDependency { target } => Some(
                CachedDataItemKey::OutdatedOutputDependency { target },
            ),
            CachedDataItemKey::CellDependency { target } => Some(
                CachedDataItemKey::OutdatedCellDependency { target },
            ),
            CachedDataItemKey::CollectiblesDependency { target } => Some(
                CachedDataItemKey::OutdatedCollectiblesDependency { target },
            ),
            _ => None,
        }
    }

    /// Whether items with this key are written to persistent storage.
    pub fn is_persistent(&self) -> (res: bool)
        ensures
            res == self.spec_is_persistent(),
    {
        match self {
            CachedDataItemKey::Output { .. } => true,
            CachedDataItemKey::Collectible { collectible, .. } => !collectible.cell.task.is_transient(),
            CachedDataItemKey::Dirty { .. } => true,
            CachedDataItemKey::DirtyWhenPersisted { .. } => true,
            CachedDataItemKey::Child { task, .. } => !task.is_transient(),
            CachedDataItemKey::CellData { .. } => true,
            CachedDataItemKey::CellTypeMaxIndex { .. } => true,
            CachedDataItemKey::OutputDependency { target, .. } => !target.is_transient(),
            CachedDataItemKey::CellDependency { target, .. } => !target.task.is_transient(),
            CachedDataItemKey::CollectiblesDependency { target, .. } => !target.task.is_transient(),
            CachedDataItemKey::OutputDependent { task, .. } => !task.is_transient(),
            CachedDataItemKey::CellDependent { task, .. } => !task.is_transient(),
            CachedDataItemKey::CollectiblesDependent { task, .. } => !task.is_transient(),
            CachedDataItemKey::AggregationNumber { .. } => true,
            CachedDataItemKey::Follower { task, .. } => !task.is_transient(),
            CachedDataItemKey::Upper { task, .. } => !task.is_transient(),
            CachedDataItemKey::AggregatedDirtyContainer { task, .. } => !task.is_transient(),
            CachedDataItemKey::AggregatedCollectible { collectible, .. } => !collectible.cell.task.is_transient(),
            CachedDataItemKey::AggregatedDirtyContainerCount { .. } => true,
            CachedDataItemKey::AggregateRoot { .. } => false,
            CachedDataItemKey::InProgress { .. } => false,
            CachedDataItemKey::InProgressCell { .. } => false,
            CachedDataItemKey::OutdatedCollectible { .. } => false,
            CachedDataItemKey::OutdatedOutputDependency { .. } => false,
            CachedDataItemKey::OutdatedCellDependency { .. } => false,
            CachedDataItemKey::OutdatedCollectiblesDependency { .. } => false,
            CachedDataItemKey::OutdatedChild { .. } => false,
            CachedDataItemKey::Error { .. } => false,
        }
    }

    /// The category of a task's data in which items with this key are stored.
    pub fn category(&self) -> (res: TaskDataCategory)
        ensures
            res == self.spec_category(),
    {
        match self {
            CachedDataItemKey::Output { .. }
            | CachedDataItemKey::Collectible { .. }
            | CachedDataItemKey::Child { .. }
            | CachedDataItemKey::CellData { .. }
            | CachedDataItemKey::CellTypeMaxIndex { .. }
            | CachedDataItemKey::OutputDependency { .. }
            | CachedDataItemKey::CellDependency { .. }
            | CachedDataItemKey::CollectiblesDependency { .. }
            | CachedDataItemKey::OutputDependent { .. }
            | CachedDataItemKey::CellDependent { .. }
            | CachedDataItemKey::CollectiblesDependent { .. }
            | CachedDataItemKey::InProgress { .. }
            | CachedDataItemKey::InProgressCell { .. }
            | CachedDataItemKey::OutdatedCollectible { .. }
            | CachedDataItemKey::OutdatedOutputDependency { .. }
            | CachedDataItemKey::OutdatedCellDependency { .. }
            | CachedDataItemKey::OutdatedCollectiblesDependency { .. }
            | CachedDataItemKey::OutdatedChild { .. }
            | CachedDataItemKey::Error { .. } => TaskDataCategory::Data,
            CachedDataItemKey::Dirty { .. }
            | CachedDataItemKey::DirtyWhenPersisted { .. }
            | CachedDataItemKey::AggregationNumber { .. }
            | CachedDataItemKey::Follower { .. }
            | CachedDataItemKey::Upper { .. }
            | CachedDataItemKey::AggregatedDirtyContainer { .. }
            | CachedDataItemKey::AggregatedCollectible { .. }
            | CachedDataItemKey::AggregatedDirtyContainerCount { .. }
            | CachedDataItemKey::AggregateRoot { .. } => TaskDataCategory::Meta,
        }
    }
}

impl Indexed for CachedDataItemKey {
    type Index = Option<CachedDataItemIndex>;

    fn index(&self) -> (res: Option<CachedDataItemIndex>)
        ensures
            res == self.spec_index(),
    {
        match self {
            CachedDataItemKey::Collectible { .. } => Some(CachedDataItemIndex::Collectibles),
            CachedDataItemKey::Child { .. } => Some(CachedDataItemIndex::Children),
            CachedDataItemKey::CellData { .. } => Some(CachedDataItemIndex::CellData),
            CachedDataItemKey::CellTypeMaxIndex { .. } => Some(CachedDataItemIndex::CellTypeMaxIndex),
            CachedDataItemKey::OutputDependency { .. } => Some(CachedDataItemIndex::Dependencies),
            CachedDataItemKey::CellDependency { .. } => Some(CachedDataItemIndex::Dependencies),
            CachedDataItemKey::CollectiblesDependency { .. } => Some(CachedDataItemIndex::Dependencies),
            CachedDataItemKey::OutputDependent { .. } => Some(CachedDataItemIndex::OutputDependent),
            CachedDataItemKey::CellDependent { .. } => Some(CachedDataItemIndex::CellDependent),
            CachedDataItemKey::Follower { .. } => Some(CachedDataItemIndex::Follower),
            CachedDataItemKey::Upper { .. } => Some(CachedDataItemIndex::Upper),
            CachedDataItemKey::AggregatedDirtyContainer { .. } => Some(CachedDataItemIndex::AggregatedDirtyContainer),
            CachedDataItemKey::AggregatedCollectible { .. } => Some(CachedDataItemIndex::AggregatedCollectible),
            CachedDataItemKey::OutdatedCollectible { .. } => Some(CachedDataItemIndex::Collectibles),
            CachedDataItemKey::OutdatedOutputDependency { .. } => Some(CachedDataItemIndex::Dependencies),
            CachedDataItemKey::OutdatedCellDependency { .. } => Some(CachedDataItemIndex::Dependencies),
            CachedDataItemKey::OutdatedCollectiblesDependency { .. } => Some(CachedDataItemIndex::Dependencies),
            CachedDataItemKey::OutdatedChild { .. } => Some(CachedDataItemIndex::Children),
            _ => None,
        }
    }
}

} // verus!
