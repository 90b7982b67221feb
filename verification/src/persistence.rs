//! Which items and values are written to persistent storage.

use vstd::prelude::*;
use crate::item::{CachedDataItem, CachedDataItemValue};
use crate::registry::ValueTypeRegistry;

verus! {

impl CachedDataItem {
    /// Whether the item is written to persistent storage, as this method reports it: for an
    /// output, whether the output points to a transient task; for every other item, whether
    /// its key is persistent.
    pub open spec fn spec_is_persistent(self) -> bool {
        match self {
            CachedDataItem::Output { value } => value.spec_is_transient(),
            _ => self.spec_key().spec_is_persistent(),
        }
    }

    /// Whether the item is written to persistent storage.
    pub fn is_persistent(&self) -> (res: bool)
        ensures
            res == self.spec_is_persistent(),
    {
        match self {
            CachedDataItem::Output { value } => value.is_transient(),
            CachedDataItem::Collectible { collectible, .. } => !collectible.cell.task.is_transient(),
            CachedDataItem::Dirty { .. } => true,
            CachedDataItem::DirtyWhenPersisted { .. } => true,
            CachedDataItem::Child { task, .. } => !task.is_transient(),
            CachedDataItem::CellData { .. } => true,
            CachedDataItem::CellTypeMaxIndex { .. } => true,
            CachedDataItem::OutputDependency { target, .. } => !target.is_transient(),
            CachedDataItem::CellDependency { target, .. } => !target.task.is_transient(),
            CachedDataItem::CollectiblesDependency { target, .. } => !target.task.is_transient(),
            CachedDataItem::OutputDependent { task, .. } => !task.is_transient(),
            CachedDataItem::CellDependent { task, .. } => !task.is_transient(),
            CachedDataItem::CollectiblesDependent { task, .. } => !task.is_transient(),
            CachedDataItem::AggregationNumber { .. } => true,
            CachedDataItem::Follower { task, .. } => !task.is_transient(),
            CachedDataItem::Upper { task, .. } => !task.is_transient(),
            CachedDataItem::AggregatedDirtyContainer { task, .. } => !task.is_transient(),
            CachedDataItem::AggregatedCollectible { collectible, .. } => {
                !collectible.cell.task.is_transient()
            },
            CachedDataItem::AggregatedDirtyContainerCount { .. } => true,
            CachedDataItem::AggregateRoot { .. } => false,
            CachedDataItem::InProgress { .. } => false,
            CachedDataItem::InProgressCell { .. } => false,
            CachedDataItem::OutdatedCollectible { .. } => false,
            CachedDataItem::OutdatedOutputDependency { .. } => false,
            CachedDataItem::OutdatedCellDependency { .. } => false,
            CachedDataItem::OutdatedCollectiblesDependency { .. } => false,
            CachedDataItem::OutdatedChild { .. } => false,
            CachedDataItem::Error { .. } => false,
        }
    }

    /// Whether the item may be missing from storage without harm: only cell contents are.
    pub fn is_optional(&self) -> (res: bool)
        ensures
            res == (self is CellData),
    {
        match self {
            CachedDataItem::CellData { .. } => true,
            _ => false,
        }
    }
}

impl CachedDataItemValue {
    /// Whether the value can be written to persistent storage: an output unless it points to
    /// a transient task, a cell's content where its value type is serializable, and every
    /// other value.
    pub open spec fn spec_is_persistent(self, registry: ValueTypeRegistry) -> bool {
        match self {
            CachedDataItemValue::Output { value } => !value.spec_is_transient(),
            CachedDataItemValue::CellData { value } => registry.spec_get(value.0).serializable,
            _ => true,
        }
    }

    /// Whether the value can be written to persistent storage; the value type of a cell's
    /// content is looked up in `registry`.
    pub fn is_persistent(&self, registry: &ValueTypeRegistry) -> (res: bool)
        requires
            self matches CachedDataItemValue::CellData { value } ==> registry.is_registered(
                value.0,
            ),
        ensures
            res == self.spec_is_persistent(*registry),
    {
        match self {
            CachedDataItemValue::Output { value } => !value.is_transient(),
            CachedDataItemValue::CellData { value } => registry.get_value_type(
                value.0,
            ).is_serializable(),
            _ => true,
        }
    }
}

} // verus!
