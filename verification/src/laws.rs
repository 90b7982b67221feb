//! Properties that hold of every item, key and value.

use vstd::prelude::*;
use crate::indicies;
use crate::item::{CachedDataItem, CachedDataItemKey, CachedDataItemValue};
use crate::key::CachedDataItemIndex;
use crate::registry::ValueTypeRegistry;

verus! {

/// Splitting an item into its key and value and joining them again gives back the item; the
/// key and the value of an item are always of the same kind.
pub proof fn lemma_split_then_join(item: CachedDataItem)
    ensures
        item.spec_key().kind_index() == item.spec_value().kind_index(),
        CachedDataItem::spec_from_key_and_value(item.spec_key(), item.spec_value()) == item,
{
}

/// Joining a key and a value of the same kind into an item and splitting it again gives back
/// that key and that value.
pub proof fn lemma_join_then_split(key: CachedDataItemKey, value: CachedDataItemValue)
    requires
        key.kind_index() == value.kind_index(),
    ensures
        CachedDataItem::spec_from_key_and_value(key, value).spec_key() == key,
        CachedDataItem::spec_from_key_and_value(key, value).spec_value() == value,
{
}

/// Items of the transient kinds are never persisted.
pub proof fn lemma_transient_kinds_not_persistent(item: CachedDataItem)
    requires
        item.spec_key().is_transient_kind(),
    ensures
        !item.spec_is_persistent(),
        !item.spec_key().spec_is_persistent(),
{
}

/// The kinds of items that may be changed in place are never persisted, so that changing
/// them cannot bypass what is written to persistent storage.
pub proof fn lemma_mutable_kinds_not_persistent()
    ensures
        !(CachedDataItemKey::InProgress {}).spec_is_persistent(),
{
}

/// An item that refers to a transient task is never persisted.
pub proof fn lemma_transient_task_not_persistent(item: CachedDataItem)
    requires
        item.spec_key().referenced_task() matches Some(task) && task.spec_is_transient(),
    ensures
        !item.spec_is_persistent(),
{
}

/// For every item but an output, and but a cell whose value type cannot be serialized, the
/// item is persisted exactly when both its key and its value are.
pub proof fn lemma_item_persistence_from_key_and_value(
    item: CachedDataItem,
    registry: ValueTypeRegistry,
)
    requires
        !(item is Output),
        item matches CachedDataItem::CellData { value, .. } ==> registry.spec_get(
            value.0,
        ).serializable,
    ensures
        item.spec_is_persistent() == (item.spec_key().spec_is_persistent()
            && item.spec_value().spec_is_persistent(registry)),
{
}

/// The outdated copy of an item that a new run of its task keeps is filed under the same
/// index and in the same category as the item, refers to the same task, and is never
/// persisted.
pub proof fn lemma_outdated_counterpart(key: CachedDataItemKey)
    requires
        key.outdated_counterpart() is Some,
    ensures
        key.outdated_counterpart()->0.spec_index() == key.spec_index(),
        key.outdated_counterpart()->0.spec_index() is Some,
        key.outdated_counterpart()->0.spec_category() == key.spec_category(),
        key.outdated_counterpart()->0.referenced_task() == key.referenced_task(),
        !key.outdated_counterpart()->0.spec_is_persistent(),
{
}

/// The index of each kind of item is the one named after it in `indicies`.
pub proof fn lemma_index_by_kind_name(key: CachedDataItemKey)
    ensures
        key is Child ==> key.spec_index() == Some(indicies::Child),
        key is OutdatedChild ==> key.spec_index() == Some(indicies::OutdatedChild),
        key is Collectible ==> key.spec_index() == Some(indicies::Collectible),
        key is OutdatedCollectible ==> key.spec_index() == Some(indicies::OutdatedCollectible),
        key is Follower ==> key.spec_index() == Some(indicies::Follower),
        key is Upper ==> key.spec_index() == Some(indicies::Upper),
        key is AggregatedDirtyContainer ==> key.spec_index() == Some(
            indicies::AggregatedDirtyContainer,
        ),
        key is AggregatedCollectible ==> key.spec_index() == Some(indicies::AggregatedCollectible),
        key is CellData ==> key.spec_index() == Some(indicies::CellData),
        key is CellTypeMaxIndex ==> key.spec_index() == Some(indicies::CellTypeMaxIndex),
        key is CellDependent ==> key.spec_index() == Some(indicies::CellDependent),
        key is OutputDependent ==> key.spec_index() == Some(indicies::OutputDependent),
        key is OutputDependency ==> key.spec_index() == Some(indicies::OutputDependency),
        key is CellDependency ==> key.spec_index() == Some(indicies::CellDependency),
        key is CollectiblesDependency ==> key.spec_index() == Some(indicies::CollectibleDependency),
        key is OutdatedOutputDependency ==> key.spec_index() == Some(
            indicies::OutdatedOutputDependency,
        ),
        key is OutdatedCellDependency ==> key.spec_index() == Some(
            indicies::OutdatedCellDependency,
        ),
        key is OutdatedCollectiblesDependency ==> key.spec_index() == Some(
            indicies::OutdatedCollectiblesDependency,
        ),
        key.spec_index() != Some(CachedDataItemIndex::CollectiblesDependent),
{
}

} // verus!
