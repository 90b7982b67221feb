//! The operations on items, keys and values, stated kind by kind in terms of the fields
//! that each kind carries.

use vstd::prelude::*;
use crate::ids::TaskId;
use crate::item::{CachedDataItem, CachedDataItemKey, CachedDataItemValue};
use crate::key::{CachedDataItemIndex, TaskDataCategory};
use crate::registry::ValueTypeRegistry;
use crate::state::OutputValue;

verus! {

/// A task id is transient exactly when its number has the top bit set, that is, when it is
/// at least 2^31.
pub proof fn lemma_task_transient_bit(task: TaskId)
    ensures
        task.spec_is_transient() <==> task.value() >= 0x8000_0000u32,
{
}

/// An output points to a transient task exactly when it is a cell of a transient task or the
/// output of a transient task; errors and panics point to no task.
pub proof fn lemma_output_transience(value: OutputValue)
    ensures
        value matches OutputValue::Cell(c) ==> (value.spec_is_transient() <==> c.task.spec_is_transient()),
        value matches OutputValue::Output(t) ==> (value.spec_is_transient() <==> t.spec_is_transient()),
        value is Error ==> !value.spec_is_transient(),
        value is Panic ==> !value.spec_is_transient(),
{
}

/// The key of an item is of the item's own kind and carries the item's identifying fields.
pub proof fn lemma_key_of_each_kind(item: CachedDataItem)
    ensures
        item matches CachedDataItem::Output { .. } ==> item.spec_key() == (CachedDataItemKey::Output {}),
        item matches CachedDataItem::Collectible { collectible, .. } ==> item.spec_key() == (CachedDataItemKey::Collectible { collectible }),
        item matches CachedDataItem::Dirty { .. } ==> item.spec_key() == (CachedDataItemKey::Dirty {}),
        item matches CachedDataItem::DirtyWhenPersisted { .. } ==> item.spec_key() == (CachedDataItemKey::DirtyWhenPersisted {}),
        item matches CachedDataItem::Child { task, .. } ==> item.spec_key() == (CachedDataItemKey::Child { task }),
        item matches CachedDataItem::CellData { cell, .. } ==> item.spec_key() == (CachedDataItemKey::CellData { cell }),
        item matches CachedDataItem::CellTypeMaxIndex { cell_type, .. } ==> item.spec_key() == (CachedDataItemKey::CellTypeMaxIndex { cell_type }),
        item matches CachedDataItem::OutputDependency { target, .. } ==> item.spec_key() == (CachedDataItemKey::OutputDependency { target }),
        item matches CachedDataItem::CellDependency { target, .. } ==> item.spec_key() == (CachedDataItemKey::CellDependency { target }),
        item matches CachedDataItem::CollectiblesDependency { target, .. } ==> item.spec_key() == (CachedDataItemKey::CollectiblesDependency { target }),
        item matches CachedDataItem::OutputDependent { task, .. } ==> item.spec_key() == (CachedDataItemKey::OutputDependent { task }),
        item matches CachedDataItem::CellDependent { cell, task, .. } ==> item.spec_key() == (CachedDataItemKey::CellDependent { cell, task }),
        item matches CachedDataItem::CollectiblesDependent { collectible_type, task, .. } ==> item.spec_key() == (CachedDataItemKey::CollectiblesDependent { collectible_type, task }),
        item matches CachedDataItem::AggregationNumber { .. } ==> item.spec_key() == (CachedDataItemKey::AggregationNumber {}),
        item matches CachedDataItem::Follower { task, .. } ==> item.spec_key() == (CachedDataItemKey::Follower { task }),
        item matches CachedDataItem::Upper { task, .. } ==> item.spec_key() == (CachedDataItemKey::Upper { task }),
        item matches CachedDataItem::AggregatedDirtyContainer { task, .. } ==> item.spec_key() == (CachedDataItemKey::AggregatedDirtyContainer { task }),
        item matches CachedDataItem::AggregatedCollectible { collectible, .. } ==> item.spec_key() == (CachedDataItemKey::AggregatedCollectible { collectible }),
        item matches CachedDataItem::AggregatedDirtyContainerCount { .. } ==> item.spec_key() == (CachedDataItemKey::AggregatedDirtyContainerCount {}),
        item matches CachedDataItem::AggregateRoot { .. } ==> item.spec_key() == (CachedDataItemKey::AggregateRoot {}),
        item matches CachedDataItem::InProgress { .. } ==> item.spec_key() == (CachedDataItemKey::InProgress {}),
        item matches CachedDataItem::InProgressCell { cell, .. } ==> item.spec_key() == (CachedDataItemKey::InProgressCell { cell }),
        item matches CachedDataItem::OutdatedCollectible { collectible, .. } ==> item.spec_key() == (CachedDataItemKey::OutdatedCollectible { collectible }),
        item matches CachedDataItem::OutdatedOutputDependency { target, .. } ==> item.spec_key() == (CachedDataItemKey::OutdatedOutputDependency { target }),
        item matches CachedDataItem::OutdatedCellDependency { target, .. } ==> item.spec_key() == (CachedDataItemKey::OutdatedCellDependency { target }),
        item matches CachedDataItem::OutdatedCollectiblesDependency { target, .. } ==> item.spec_key() == (CachedDataItemKey::OutdatedCollectiblesDependency { target }),
        item matches CachedDataItem::OutdatedChild { task, .. } ==> item.spec_key() == (CachedDataItemKey::OutdatedChild { task }),
        item matches CachedDataItem::Error { .. } ==> item.spec_key() == (CachedDataItemKey::Error {}),
{
}

/// The value of an item is of the item's own kind and holds the item's value field unchanged.
pub proof fn lemma_value_of_each_kind(item: CachedDataItem)
    ensures
        item matches CachedDataItem::Output { value, .. } ==> item.spec_value() == (CachedDataItemValue::Output { value }),
        item matches CachedDataItem::Collectible { value, .. } ==> item.spec_value() == (CachedDataItemValue::Collectible { value }),
        item matches CachedDataItem::Dirty { value, .. } ==> item.spec_value() == (CachedDataItemValue::Dirty { value }),
        item matches CachedDataItem::DirtyWhenPersisted { value, .. } ==> item.spec_value() == (CachedDataItemValue::DirtyWhenPersisted { value }),
        item matches CachedDataItem::Child { value, .. } ==> item.spec_value() == (CachedDataItemValue::Child { value }),
        item matches CachedDataItem::CellData { value, .. } ==> item.spec_value() == (CachedDataItemValue::CellData { value }),
        item matches CachedDataItem::CellTypeMaxIndex { value, .. } ==> item.spec_value() == (CachedDataItemValue::CellTypeMaxIndex { value }),
        item matches CachedDataItem::OutputDependency { value, .. } ==> item.spec_value() == (CachedDataItemValue::OutputDependency { value }),
        item matches CachedDataItem::CellDependency { value, .. } ==> item.spec_value() == (CachedDataItemValue::CellDependency { value }),
        item matches CachedDataItem::CollectiblesDependency { value, .. } ==> item.spec_value() == (CachedDataItemValue::CollectiblesDependency { value }),
        item matches CachedDataItem::OutputDependent { value, .. } ==> item.spec_value() == (CachedDataItemValue::OutputDependent { value }),
        item matches CachedDataItem::CellDependent { value, .. } ==> item.spec_value() == (CachedDataItemValue::CellDependent { value }),
        item matches CachedDataItem::CollectiblesDependent { value, .. } ==> item.spec_value() == (CachedDataItemValue::CollectiblesDependent { value }),
        item matches CachedDataItem::AggregationNumber { value, .. } ==> item.spec_value() == (CachedDataItemValue::AggregationNumber { value }),
        item matches CachedDataItem::Follower { value, .. } ==> item.spec_value() == (CachedDataItemValue::Follower { value }),
        item matches CachedDataItem::Upper { value, .. } ==> item.spec_value() == (CachedDataItemValue::Upper { value }),
        item matches CachedDataItem::AggregatedDirtyContainer { value, .. } ==> item.spec_value() == (CachedDataItemValue::AggregatedDirtyContainer { value }),
        item matches CachedDataItem::AggregatedCollectible { value, .. } ==> item.spec_value() == (CachedDataItemValue::AggregatedCollectible { value }),
        item matches CachedDataItem::AggregatedDirtyContainerCount { value, .. } ==> item.spec_value() == (CachedDataItemValue::AggregatedDirtyContainerCount { value }),
        item matches CachedDataItem::AggregateRoot { value, .. } ==> item.spec_value() == (CachedDataItemValue::AggregateRoot { value }),
        item matches CachedDataItem::InProgress { value, .. } ==> item.spec_value() == (CachedDataItemValue::InProgress { value }),
        item matches CachedDataItem::InProgressCell { value, .. } ==> item.spec_value() == (CachedDataItemValue::InProgressCell { value }),
        item matches CachedDataItem::OutdatedCollectible { value, .. } ==> item.spec_value() == (CachedDataItemValue::OutdatedCollectible { value }),
        item matches CachedDataItem::OutdatedOutputDependency { value, .. } ==> item.spec_value() == (CachedDataItemValue::OutdatedOutputDependency { value }),
        item matches CachedDataItem::OutdatedCellDependency { value, .. } ==> item.spec_value() == (CachedDataItemValue::OutdatedCellDependency { value }),
        item matches CachedDataItem::OutdatedCollectiblesDependency { value, .. } ==> item.spec_value() == (CachedDataItemValue::OutdatedCollectiblesDependency { value }),
        item matches CachedDataItem::OutdatedChild { value, .. } ==> item.spec_value() == (CachedDataItemValue::OutdatedChild { value }),
        item matches CachedDataItem::Error { value, .. } ==> item.spec_value() == (CachedDataItemValue::Error { value }),
{
}

/// Joining a key and a value of the same kind gives the item of the key's kind, with the
/// key's fields and the value's value.
pub proof fn lemma_join_each_kind(key: CachedDataItemKey, value: CachedDataItemValue)
    ensures
        key matches CachedDataItemKey::Output {} ==> (value matches CachedDataItemValue::Output { value: v } ==> CachedDataItem::spec_from_key_and_value(key, value) == (CachedDataItem::Output { value: v })),
        key matches CachedDataItemKey::Collectible { collectible } ==> (value matches CachedDataItemValue::Collectible { value: v } ==> CachedDataItem::spec_from_key_and_value(key, value) == (CachedDataItem::Collectible { collectible, value: v })),
        key matches CachedDataItemKey::Dirty {} ==> (value matches CachedDataItemValue::Dirty { value: v } ==> CachedDataItem::spec_from_key_and_value(key, value) == (CachedDataItem::Dirty { value: v })),
        key matches CachedDataItemKey::DirtyWhenPersisted {} ==> (value matches CachedDataItemValue::DirtyWhenPersisted { value: v } ==> CachedDataItem::spec_from_key_and_value(key, value) == (CachedDataItem::DirtyWhenPersisted { value: v })),
        key matches CachedDataItemKey::Child { task } ==> (value matches CachedDataItemValue::Child { value: v } ==> CachedDataItem::spec_from_key_and_value(key, value) == (CachedDataItem::Child { task, value: v })),
        key matches CachedDataItemKey::CellData { cell } ==> (value matches CachedDataItemValue::CellData { value: v } ==> CachedDataItem::spec_from_key_and_value(key, value) == (CachedDataItem::CellData { cell, value: v })),
        key matches CachedDataItemKey::CellTypeMaxIndex { cell_type } ==> (value matches CachedDataItemValue::CellTypeMaxIndex { value: v } ==> CachedDataItem::spec_from_key_and_value(key, value) == (CachedDataItem::CellTypeMaxIndex { cell_type, value: v })),
        key matches CachedDataItemKey::OutputDependency { target } ==> (value matches CachedDataItemValue::OutputDependency { value: v } ==> CachedDataItem::spec_from_key_and_value(key, value) == (CachedDataItem::OutputDependency { target, value: v })),
        key matches CachedDataItemKey::CellDependency { target } ==> (value matches CachedDataItemValue::CellDependency { value: v } ==> CachedDataItem::spec_from_key_and_value(key, value) == (CachedDataItem::CellDependency { target, value: v })),
        key matches CachedDataItemKey::CollectiblesDependency { target } ==> (value matches CachedDataItemValue::CollectiblesDependency { value: v } ==> CachedDataItem::spec_from_key_and_value(key, value) == (CachedDataItem::CollectiblesDependency { target, value: v })),
        key matches CachedDataItemKey::OutputDependent { task } ==> (value matches CachedDataItemValue::OutputDependent { value: v } ==> CachedDataItem::spec_from_key_and_value(key, value) == (CachedDataItem::OutputDependent { task, value: v })),
        key matches CachedDataItemKey::CellDependent { cell, task } ==> (value matches CachedDataItemValue::CellDependent { value: v } ==> CachedDataItem::spec_from_key_and_value(key, value) == (CachedDataItem::CellDependent { cell, task, value: v })),
        key matches CachedDataItemKey::CollectiblesDependent { collectible_type, task } ==> (value matches CachedDataItemValue::CollectiblesDependent { value: v } ==> CachedDataItem::spec_from_key_and_value(key, value) == (CachedDataItem::CollectiblesDependent { collectible_type, task, value: v })),
        key matches CachedDataItemKey::AggregationNumber {} ==> (value matches CachedDataItemValue::AggregationNumber { value: v } ==> CachedDataItem::spec_from_key_and_value(key, value) == (CachedDataItem::AggregationNumber { value: v })),
        key matches CachedDataItemKey::Follower { task } ==> (value matches CachedDataItemValue::Follower { value: v } ==> CachedDataItem::spec_from_key_and_value(key, value) == (CachedDataItem::Follower { task, value: v })),
        key matches CachedDataItemKey::Upper { task } ==> (value matches CachedDataItemValue::Upper { value: v } ==> CachedDataItem::spec_from_key_and_value(key, value) == (CachedDataItem::Upper { task, value: v })),
        key matches CachedDataItemKey::AggregatedDirtyContainer { task } ==> (value matches CachedDataItemValue::AggregatedDirtyContainer { value: v } ==> CachedDataItem::spec_from_key_and_value(key, value) == (CachedDataItem::AggregatedDirtyContainer { task, value: v })),
        key matches CachedDataItemKey::AggregatedCollectible { collectible } ==> (value matches CachedDataItemValue::AggregatedCollectible { value: v } ==> CachedDataItem::spec_from_key_and_value(key, value) == (CachedDataItem::AggregatedCollectible { collectible, value: v })),
        key matches CachedDataItemKey::AggregatedDirtyContainerCount {} ==> (value matches CachedDataItemValue::AggregatedDirtyContainerCount { value: v } ==> CachedDataItem::spec_from_key_and_value(key, value) == (CachedDataItem::AggregatedDirtyContainerCount { value: v })),
        key matches CachedDataItemKey::AggregateRoot {} ==> (value matches CachedDataItemValue::AggregateRoot { value: v } ==> CachedDataItem::spec_from_key_and_value(key, value) == (CachedDataItem::AggregateRoot { value: v })),
        key matches CachedDataItemKey::InProgress {} ==> (value matches CachedDataItemValue::InProgress { value: v } ==> CachedDataItem::spec_from_key_and_value(key, value) == (CachedDataItem::InProgress { value: v })),
        key matches CachedDataItemKey::InProgressCell { cell } ==> (value matches CachedDataItemValue::InProgressCell { value: v } ==> CachedDataItem::spec_from_key_and_value(key, value) == (CachedDataItem::InProgressCell { cell, value: v })),
        key matches CachedDataItemKey::OutdatedCollectible { collectible } ==> (value matches CachedDataItemValue::OutdatedCollectible { value: v } ==> CachedDataItem::spec_from_key_and_value(key, value) == (CachedDataItem::OutdatedCollectible { collectible, value: v })),
        key matches CachedDataItemKey::OutdatedOutputDependency { target } ==> (value matches CachedDataItemValue::OutdatedOutputDependency { value: v } ==> CachedDataItem::spec_from_key_and_value(key, value) == (CachedDataItem::OutdatedOutputDependency { target, value: v })),
        key matches CachedDataItemKey::OutdatedCellDependency { target } ==> (value matches CachedDataItemValue::OutdatedCellDependency { value: v } ==> CachedDataItem::spec_from_key_and_value(key, value) == (CachedDataItem::OutdatedCellDependency { target, value: v })),
        key matches CachedDataItemKey::OutdatedCollectiblesDependency { target } ==> (value matches CachedDataItemValue::OutdatedCollectiblesDependency { value: v } ==> CachedDataItem::spec_from_key_and_value(key, value) == (CachedDataItem::OutdatedCollectiblesDependency { target, value: v })),
        key matches CachedDataItemKey::OutdatedChild { task } ==> (value matches CachedDataItemValue::OutdatedChild { value: v } ==> CachedDataItem::spec_from_key_and_value(key, value) == (CachedDataItem::OutdatedChild { task, value: v })),
        key matches CachedDataItemKey::Error {} ==> (value matches CachedDataItemValue::Error { value: v } ==> CachedDataItem::spec_from_key_and_value(key, value) == (CachedDataItem::Error { value: v })),
{
}

/// Whether a key is persistent, kind by kind: the kinds without a task are persistent, the
/// kinds that refer to a task are persistent exactly when that task is not transient, and
/// the transient kinds never are.
pub proof fn lemma_key_persistence_each_kind(key: CachedDataItemKey)
    ensures
        key matches CachedDataItemKey::Output { .. } ==> (key.spec_is_persistent() <==> true),
        key matches CachedDataItemKey::Collectible { collectible, .. } ==> (key.spec_is_persistent() <==> !collectible.cell.task.spec_is_transient()),
        key matches CachedDataItemKey::Dirty { .. } ==> (key.spec_is_persistent() <==> true),
        key matches CachedDataItemKey::DirtyWhenPersisted { .. } ==> (key.spec_is_persistent() <==> true),
        key matches CachedDataItemKey::Child { task, .. } ==> (key.spec_is_persistent() <==> !task.spec_is_transient()),
        key matches CachedDataItemKey::CellData { .. } ==> (key.spec_is_persistent() <==> true),
        key matches CachedDataItemKey::CellTypeMaxIndex { .. } ==> (key.spec_is_persistent() <==> true),
        key matches CachedDataItemKey::OutputDependency { target, .. } ==> (key.spec_is_persistent() <==> !target.spec_is_transient()),
        key matches CachedDataItemKey::CellDependency { target, .. } ==> (key.spec_is_persistent() <==> !target.task.spec_is_transient()),
        key matches CachedDataItemKey::CollectiblesDependency { target, .. } ==> (key.spec_is_persistent() <==> !target.task.spec_is_transient()),
        key matches CachedDataItemKey::OutputDependent { task, .. } ==> (key.spec_is_persistent() <==> !task.spec_is_transient()),
        key matches CachedDataItemKey::CellDependent { task, .. } ==> (key.spec_is_persistent() <==> !task.spec_is_transient()),
        key matches CachedDataItemKey::CollectiblesDependent { task, .. } ==> (key.spec_is_persistent() <==> !task.spec_is_transient()),
        key matches CachedDataItemKey::AggregationNumber { .. } ==> (key.spec_is_persistent() <==> true),
        key matches CachedDataItemKey::Follower { task, .. } ==> (key.spec_is_persistent() <==> !task.spec_is_transient()),
        key matches CachedDataItemKey::Upper { task, .. } ==> (key.spec_is_persistent() <==> !task.spec_is_transient()),
        key matches CachedDataItemKey::AggregatedDirtyContainer { task, .. } ==> (key.spec_is_persistent() <==> !task.spec_is_transient()),
        key matches CachedDataItemKey::AggregatedCollectible { collectible, .. } ==> (key.spec_is_persistent() <==> !collectible.cell.task.spec_is_transient()),
        key matches CachedDataItemKey::AggregatedDirtyContainerCount { .. } ==> (key.spec_is_persistent() <==> true),
        key is AggregateRoot ==> !key.spec_is_persistent(),
        key is InProgress ==> !key.spec_is_persistent(),
        key is InProgressCell ==> !key.spec_is_persistent(),
        key is OutdatedCollectible ==> !key.spec_is_persistent(),
        key is OutdatedOutputDependency ==> !key.spec_is_persistent(),
        key is OutdatedCellDependency ==> !key.spec_is_persistent(),
        key is OutdatedCollectiblesDependency ==> !key.spec_is_persistent(),
        key is OutdatedChild ==> !key.spec_is_persistent(),
        key is Error ==> !key.spec_is_persistent(),
{
}

/// Whether an item is persistent, kind by kind: an output is reported persistent exactly when
/// it points to a transient task; every other item as its kind and the task it refers to say.
pub proof fn lemma_item_persistence_each_kind(item: CachedDataItem)
    ensures
        item matches CachedDataItem::Output { value } ==> (item.spec_is_persistent() <==> value.spec_is_transient()),
        item matches CachedDataItem::Collectible { collectible, .. } ==> (item.spec_is_persistent() <==> !collectible.cell.task.spec_is_transient()),
        item matches CachedDataItem::Dirty { .. } ==> (item.spec_is_persistent() <==> true),
        item matches CachedDataItem::DirtyWhenPersisted { .. } ==> (item.spec_is_persistent() <==> true),
        item matches CachedDataItem::Child { task, .. } ==> (item.spec_is_persistent() <==> !task.spec_is_transient()),
        item matches CachedDataItem::CellData { .. } ==> (item.spec_is_persistent() <==> true),
        item matches CachedDataItem::CellTypeMaxIndex { .. } ==> (item.spec_is_persistent() <==> true),
        item matches CachedDataItem::OutputDependency { target, .. } ==> (item.spec_is_persistent() <==> !target.spec_is_transient()),
        item matches CachedDataItem::CellDependency { target, .. } ==> (item.spec_is_persistent() <==> !target.task.spec_is_transient()),
        item matches CachedDataItem::CollectiblesDependency { target, .. } ==> (item.spec_is_persistent() <==> !target.task.spec_is_transient()),
        item matches CachedDataItem::OutputDependent { task, .. } ==> (item.spec_is_persistent() <==> !task.spec_is_transient()),
        item matches CachedDataItem::CellDependent { task, .. } ==> (item.spec_is_persistent() <==> !task.spec_is_transient()),
        item matches CachedDataItem::CollectiblesDependent { task, .. } ==> (item.spec_is_persistent() <==> !task.spec_is_transient()),
        item matches CachedDataItem::AggregationNumber { .. } ==> (item.spec_is_persistent() <==> true),
        item matches CachedDataItem::Follower { task, .. } ==> (item.spec_is_persistent() <==> !task.spec_is_transient()),
        item matches CachedDataItem::Upper { task, .. } ==> (item.spec_is_persistent() <==> !task.spec_is_transient()),
        item matches CachedDataItem::AggregatedDirtyContainer { task, .. } ==> (item.spec_is_persistent() <==> !task.spec_is_transient()),
        item matches CachedDataItem::AggregatedCollectible { collectible, .. } ==> (item.spec_is_persistent() <==> !collectible.cell.task.spec_is_transient()),
        item matches CachedDataItem::AggregatedDirtyContainerCount { .. } ==> (item.spec_is_persistent() <==> true),
        item is AggregateRoot ==> !item.spec_is_persistent(),
        item is InProgress ==> !item.spec_is_persistent(),
        item is InProgressCell ==> !item.spec_is_persistent(),
        item is OutdatedCollectible ==> !item.spec_is_persistent(),
        item is OutdatedOutputDependency ==> !item.spec_is_persistent(),
        item is OutdatedCellDependency ==> !item.spec_is_persistent(),
        item is OutdatedCollectiblesDependency ==> !item.spec_is_persistent(),
        item is OutdatedChild ==> !item.spec_is_persistent(),
        item is Error ==> !item.spec_is_persistent(),
{
}

/// Whether a value can be persisted: an output exactly when it points to no transient task, a
/// cell's content exactly when its value type is serializable, every other value always.
pub proof fn lemma_value_persistence_each_kind(value: CachedDataItemValue, registry: ValueTypeRegistry)
    ensures
        value matches CachedDataItemValue::Output { value: OutputValue::Cell(c) } ==> (value.spec_is_persistent(registry) <==> !c.task.spec_is_transient()),
        value matches CachedDataItemValue::Output { value: OutputValue::Output(t) } ==> (value.spec_is_persistent(registry) <==> !t.spec_is_transient()),
        value matches CachedDataItemValue::Output { value: OutputValue::Error } ==> value.spec_is_persistent(registry),
        value matches CachedDataItemValue::Output { value: OutputValue::Panic } ==> value.spec_is_persistent(registry),
        value matches CachedDataItemValue::CellData { value: r } ==> (value.spec_is_persistent(registry) <==> registry@[r.0.value() - 1].serializable),
        value is Collectible ==> value.spec_is_persistent(registry),
        value is Dirty ==> value.spec_is_persistent(registry),
        value is DirtyWhenPersisted ==> value.spec_is_persistent(registry),
        value is Child ==> value.spec_is_persistent(registry),
        value is CellTypeMaxIndex ==> value.spec_is_persistent(registry),
        value is OutputDependency ==> value.spec_is_persistent(registry),
        value is CellDependency ==> value.spec_is_persistent(registry),
        value is CollectiblesDependency ==> value.spec_is_persistent(registry),
        value is OutputDependent ==> value.spec_is_persistent(registry),
        value is CellDependent ==> value.spec_is_persistent(registry),
        value is CollectiblesDependent ==> value.spec_is_persistent(registry),
        value is AggregationNumber ==> value.spec_is_persistent(registry),
        value is Follower ==> value.spec_is_persistent(registry),
        value is Upper ==> value.spec_is_persistent(registry),
        value is AggregatedDirtyContainer ==> value.spec_is_persistent(registry),
        value is AggregatedCollectible ==> value.spec_is_persistent(registry),
        value is AggregatedDirtyContainerCount ==> value.spec_is_persistent(registry),
        value is AggregateRoot ==> value.spec_is_persistent(registry),
        value is InProgress ==> value.spec_is_persistent(registry),
        value is InProgressCell ==> value.spec_is_persistent(registry),
        value is OutdatedCollectible ==> value.spec_is_persistent(registry),
        value is OutdatedOutputDependency ==> value.spec_is_persistent(registry),
        value is OutdatedCellDependency ==> value.spec_is_persistent(registry),
        value is OutdatedCollectiblesDependency ==> value.spec_is_persistent(registry),
        value is OutdatedChild ==> value.spec_is_persistent(registry),
        value is Error ==> value.spec_is_persistent(registry),
{
}

/// The category of each kind of key.
pub proof fn lemma_category_each_kind(key: CachedDataItemKey)
    ensures
        key is Output ==> key.spec_category() == TaskDataCategory::Data,
        key is Collectible ==> key.spec_category() == TaskDataCategory::Data,
        key is Dirty ==> key.spec_category() == TaskDataCategory::Meta,
        key is DirtyWhenPersisted ==> key.spec_category() == TaskDataCategory::Meta,
        key is Child ==> key.spec_category() == TaskDataCategory::Data,
        key is CellData ==> key.spec_category() == TaskDataCategory::Data,
        key is CellTypeMaxIndex ==> key.spec_category() == TaskDataCategory::Data,
        key is OutputDependency ==> key.spec_category() == TaskDataCategory::Data,
        key is CellDependency ==> key.spec_category() == TaskDataCategory::Data,
        key is CollectiblesDependency ==> key.spec_category() == TaskDataCategory::Data,
        key is OutputDependent ==> key.spec_category() == TaskDataCategory::Data,
        key is CellDependent ==> key.spec_category() == TaskDataCategory::Data,
        key is CollectiblesDependent ==> key.spec_category() == TaskDataCategory::Data,
        key is AggregationNumber ==> key.spec_category() == TaskDataCategory::Meta,
        key is Follower ==> key.spec_category() == TaskDataCategory::Meta,
        key is Upper ==> key.spec_category() == TaskDataCategory::Meta,
        key is AggregatedDirtyContainer ==> key.spec_category() == TaskDataCategory::Meta,
        key is AggregatedCollectible ==> key.spec_category() == TaskDataCategory::Meta,
        key is AggregatedDirtyContainerCount ==> key.spec_category() == TaskDataCategory::Meta,
        key is AggregateRoot ==> key.spec_category() == TaskDataCategory::Meta,
        key is InProgress ==> key.spec_category() == TaskDataCategory::Data,
        key is InProgressCell ==> key.spec_category() == TaskDataCategory::Data,
        key is OutdatedCollectible ==> key.spec_category() == TaskDataCategory::Data,
        key is OutdatedOutputDependency ==> key.spec_category() == TaskDataCategory::Data,
        key is OutdatedCellDependency ==> key.spec_category() == TaskDataCategory::Data,
        key is OutdatedCollectiblesDependency ==> key.spec_category() == TaskDataCategory::Data,
        key is OutdatedChild ==> key.spec_category() == TaskDataCategory::Data,
        key is Error ==> key.spec_category() == TaskDataCategory::Data,
{
}

/// The index of each kind of key.
pub proof fn lemma_index_each_kind(key: CachedDataItemKey)
    ensures
        key is Output ==> key.spec_index() == None::<CachedDataItemIndex>,
        key is Collectible ==> key.spec_index() == Some(CachedDataItemIndex::Collectibles),
        key is Dirty ==> key.spec_index() == None::<CachedDataItemIndex>,
        key is DirtyWhenPersisted ==> key.spec_index() == None::<CachedDataItemIndex>,
        key is Child ==> key.spec_index() == Some(CachedDataItemIndex::Children),
        key is CellData ==> key.spec_index() == Some(CachedDataItemIndex::CellData),
        key is CellTypeMaxIndex ==> key.spec_index() == Some(CachedDataItemIndex::CellTypeMaxIndex),
        key is OutputDependency ==> key.spec_index() == Some(CachedDataItemIndex::Dependencies),
        key is CellDependency ==> key.spec_index() == Some(CachedDataItemIndex::Dependencies),
        key is CollectiblesDependency ==> key.spec_index() == Some(CachedDataItemIndex::Dependencies),
        key is OutputDependent ==> key.spec_index() == Some(CachedDataItemIndex::OutputDependent),
        key is CellDependent ==> key.spec_index() == Some(CachedDataItemIndex::CellDependent),
        key is CollectiblesDependent ==> key.spec_index() == None::<CachedDataItemIndex>,
        key is AggregationNumber ==> key.spec_index() == None::<CachedDataItemIndex>,
        key is Follower ==> key.spec_index() == Some(CachedDataItemIndex::Follower),
        key is Upper ==> key.spec_index() == Some(CachedDataItemIndex::Upper),
        key is AggregatedDirtyContainer ==> key.spec_index() == Some(CachedDataItemIndex::AggregatedDirtyContainer),
        key is AggregatedCollectible ==> key.spec_index() == Some(CachedDataItemIndex::AggregatedCollectible),
        key is AggregatedDirtyContainerCount ==> key.spec_index() == None::<CachedDataItemIndex>,
        key is AggregateRoot ==> key.spec_index() == None::<CachedDataItemIndex>,
        key is InProgress ==> key.spec_index() == None::<CachedDataItemIndex>,
        key is InProgressCell ==> key.spec_index() == None::<CachedDataItemIndex>,
        key is OutdatedCollectible ==> key.spec_index() == Some(CachedDataItemIndex::Collectibles),
        key is OutdatedOutputDependency ==> key.spec_index() == Some(CachedDataItemIndex::Dependencies),
        key is OutdatedCellDependency ==> key.spec_index() == Some(CachedDataItemIndex::Dependencies),
        key is OutdatedCollectiblesDependency ==> key.spec_index() == Some(CachedDataItemIndex::Dependencies),
        key is OutdatedChild ==> key.spec_index() == Some(CachedDataItemIndex::Children),
        key is Error ==> key.spec_index() == None::<CachedDataItemIndex>,
{
}

} // verus!
