use turbo_tasks_backend::event::{EventDescription, EventListener};
use turbo_tasks_backend::ids::{CellId, TaskId, TraitTypeId, ValueTypeId, TRANSIENT_TASK_BIT};
use turbo_tasks_backend::indicies;
use turbo_tasks_backend::item::{CachedDataItem, CachedDataItemKey, CachedDataItemValue};
use turbo_tasks_backend::key::{CachedDataItemIndex, CachedDataItemIndex as I, Indexed, TaskDataCategory};
use turbo_tasks_backend::registry::{
    SharedError, SharedReference, TypedSharedReference, ValueType, ValueTypeRegistry,
};
use turbo_tasks_backend::state::{
    ActiveType, AggregationNumber, CellRef, CollectibleRef, CollectiblesRef, InProgressCellState,
    InProgressState, OutputValue, RootState,
};
use turbo_tasks_backend::update::CachedDataUpdate;

fn task(id: u32) -> TaskId {
    TaskId::new(id).unwrap()
}

fn persistent_task() -> TaskId {
    task(7)
}

fn transient_task() -> TaskId {
    task(TRANSIENT_TASK_BIT | 7)
}

fn cell_id(ty: u32, index: u32) -> CellId {
    CellId { type_id: ValueTypeId::new(ty).unwrap(), index }
}

fn cell_ref(t: TaskId) -> CellRef {
    CellRef { task: t, cell: cell_id(3, 1) }
}

fn collectible(t: TaskId) -> CollectibleRef {
    CollectibleRef { collectible_type: TraitTypeId::new(2).unwrap(), cell: cell_ref(t) }
}

fn collectibles(t: TaskId) -> CollectiblesRef {
    CollectiblesRef { task: t, collectible_type: TraitTypeId::new(2).unwrap() }
}

fn error_item() -> CachedDataItem {
    CachedDataItem::Error { value: SharedError { message: "boom".to_string() } }
}

#[test]
fn ids_reject_zero() {
    assert!(TaskId::new(0).is_none());
    assert!(ValueTypeId::new(0).is_none());
    assert!(TraitTypeId::new(0).is_none());
    assert_eq!(TaskId::new(42).unwrap().get(), 42);
    assert_eq!(ValueTypeId::new(9).unwrap().get(), 9);
    assert_eq!(TraitTypeId::new(4).unwrap().get(), 4);
}

#[test]
fn transient_bit_marks_transient_tasks() {
    assert!(!task(1).is_transient());
    assert!(!task(0x7fff_ffff).is_transient());
    assert!(task(0x8000_0000).is_transient());
    assert!(task(0xffff_ffff).is_transient());
    assert!(transient_task().is_transient());
}

#[test]
fn output_value_transience() {
    assert!(OutputValue::Cell(cell_ref(transient_task())).is_transient());
    assert!(!OutputValue::Cell(cell_ref(persistent_task())).is_transient());
    assert!(OutputValue::Output(transient_task()).is_transient());
    assert!(!OutputValue::Output(persistent_task()).is_transient());
    assert!(!OutputValue::Error.is_transient());
    assert!(!OutputValue::Panic.is_transient());
}

#[test]
fn key_persistence_of_each_kind() {
    let p = persistent_task();
    let t = transient_task();
    assert!(CachedDataItemKey::Output {}.is_persistent());
    assert!(CachedDataItemKey::Dirty {}.is_persistent());
    assert!(CachedDataItemKey::DirtyWhenPersisted {}.is_persistent());
    assert!(CachedDataItemKey::CellData { cell: cell_id(3, 0) }.is_persistent());
    assert!(CachedDataItemKey::CellTypeMaxIndex { cell_type: ValueTypeId::new(3).unwrap() }
        .is_persistent());
    assert!(CachedDataItemKey::AggregationNumber {}.is_persistent());
    assert!(CachedDataItemKey::AggregatedDirtyContainerCount {}.is_persistent());

    assert!(CachedDataItemKey::Collectible { collectible: collectible(p) }.is_persistent());
    assert!(!CachedDataItemKey::Collectible { collectible: collectible(t) }.is_persistent());
    assert!(CachedDataItemKey::Child { task: p }.is_persistent());
    assert!(!CachedDataItemKey::Child { task: t }.is_persistent());
    assert!(CachedDataItemKey::OutputDependency { target: p }.is_persistent());
    assert!(!CachedDataItemKey::OutputDependency { target: t }.is_persistent());
    assert!(CachedDataItemKey::CellDependency { target: cell_ref(p) }.is_persistent());
    assert!(!CachedDataItemKey::CellDependency { target: cell_ref(t) }.is_persistent());
    assert!(CachedDataItemKey::CollectiblesDependency { target: collectibles(p) }.is_persistent());
    assert!(!CachedDataItemKey::CollectiblesDependency { target: collectibles(t) }
        .is_persistent());
    assert!(CachedDataItemKey::OutputDependent { task: p }.is_persistent());
    assert!(!CachedDataItemKey::OutputDependent { task: t }.is_persistent());
    assert!(CachedDataItemKey::CellDependent { cell: cell_id(3, 0), task: p }.is_persistent());
    assert!(!CachedDataItemKey::CellDependent { cell: cell_id(3, 0), task: t }.is_persistent());
    let ty = TraitTypeId::new(2).unwrap();
    assert!(CachedDataItemKey::CollectiblesDependent { collectible_type: ty, task: p }
        .is_persistent());
    assert!(!CachedDataItemKey::CollectiblesDependent { collectible_type: ty, task: t }
        .is_persistent());
    assert!(CachedDataItemKey::Follower { task: p }.is_persistent());
    assert!(!CachedDataItemKey::Follower { task: t }.is_persistent());
    assert!(CachedDataItemKey::Upper { task: p }.is_persistent());
    assert!(!CachedDataItemKey::Upper { task: t }.is_persistent());
    assert!(CachedDataItemKey::AggregatedDirtyContainer { task: p }.is_persistent());
    assert!(!CachedDataItemKey::AggregatedDirtyContainer { task: t }.is_persistent());
    assert!(CachedDataItemKey::AggregatedCollectible { collectible: collectible(p) }
        .is_persistent());
    assert!(!CachedDataItemKey::AggregatedCollectible { collectible: collectible(t) }
        .is_persistent());

    assert!(!CachedDataItemKey::AggregateRoot {}.is_persistent());
    assert!(!CachedDataItemKey::InProgress {}.is_persistent());
    assert!(!CachedDataItemKey::InProgressCell { cell: cell_id(3, 0) }.is_persistent());
    assert!(!CachedDataItemKey::OutdatedCollectible { collectible: collectible(p) }
        .is_persistent());
    assert!(!CachedDataItemKey::OutdatedOutputDependency { target: p }.is_persistent());
    assert!(!CachedDataItemKey::OutdatedCellDependency { target: cell_ref(p) }.is_persistent());
    assert!(!CachedDataItemKey::OutdatedCollectiblesDependency { target: collectibles(p) }
        .is_persistent());
    assert!(!CachedDataItemKey::OutdatedChild { task: p }.is_persistent());
    assert!(!CachedDataItemKey::Error {}.is_persistent());
}

#[test]
fn key_categories() {
    let p = persistent_task();
    let meta = [
        CachedDataItemKey::AggregationNumber {},
        CachedDataItemKey::Dirty {},
        CachedDataItemKey::DirtyWhenPersisted {},
        CachedDataItemKey::Follower { task: p },
        CachedDataItemKey::Upper { task: p },
        CachedDataItemKey::AggregatedDirtyContainer { task: p },
        CachedDataItemKey::AggregatedCollectible { collectible: collectible(p) },
        CachedDataItemKey::AggregatedDirtyContainerCount {},
        CachedDataItemKey::AggregateRoot {},
    ];
    for k in meta.iter() {
        assert_eq!(k.category(), TaskDataCategory::Meta, "{:?}", k);
    }
    let data = [
        CachedDataItemKey::Output {},
        CachedDataItemKey::Collectible { collectible: collectible(p) },
        CachedDataItemKey::Child { task: p },
        CachedDataItemKey::CellData { cell: cell_id(3, 0) },
        CachedDataItemKey::CellTypeMaxIndex { cell_type: ValueTypeId::new(3).unwrap() },
        CachedDataItemKey::OutputDependency { target: p },
        CachedDataItemKey::CellDependency { target: cell_ref(p) },
        CachedDataItemKey::CollectiblesDependency { target: collectibles(p) },
        CachedDataItemKey::OutputDependent { task: p },
        CachedDataItemKey::CellDependent { cell: cell_id(3, 0), task: p },
        CachedDataItemKey::CollectiblesDependent {
            collectible_type: TraitTypeId::new(2).unwrap(),
            task: p,
        },
        CachedDataItemKey::InProgress {},
        CachedDataItemKey::InProgressCell { cell: cell_id(3, 0) },
        CachedDataItemKey::OutdatedCollectible { collectible: collectible(p) },
        CachedDataItemKey::OutdatedOutputDependency { target: p },
        CachedDataItemKey::OutdatedCellDependency { target: cell_ref(p) },
        CachedDataItemKey::OutdatedCollectiblesDependency { target: collectibles(p) },
        CachedDataItemKey::OutdatedChild { task: p },
        CachedDataItemKey::Error {},
    ];
    for k in data.iter() {
        assert_eq!(k.category(), TaskDataCategory::Data, "{:?}", k);
    }
}

#[test]
fn key_indexes() {
    let p = persistent_task();
    let cases = [
        (CachedDataItemKey::Child { task: p }, Some(I::Children)),
        (CachedDataItemKey::OutdatedChild { task: p }, Some(I::Children)),
        (CachedDataItemKey::Collectible { collectible: collectible(p) }, Some(I::Collectibles)),
        (
            CachedDataItemKey::OutdatedCollectible { collectible: collectible(p) },
            Some(I::Collectibles),
        ),
        (CachedDataItemKey::Follower { task: p }, Some(I::Follower)),
        (CachedDataItemKey::Upper { task: p }, Some(I::Upper)),
        (CachedDataItemKey::AggregatedDirtyContainer { task: p }, Some(I::AggregatedDirtyContainer)),
        (
            CachedDataItemKey::AggregatedCollectible { collectible: collectible(p) },
            Some(I::AggregatedCollectible),
        ),
        (CachedDataItemKey::CellData { cell: cell_id(3, 0) }, Some(I::CellData)),
        (
            CachedDataItemKey::CellTypeMaxIndex { cell_type: ValueTypeId::new(3).unwrap() },
            Some(I::CellTypeMaxIndex),
        ),
        (CachedDataItemKey::CellDependent { cell: cell_id(3, 0), task: p }, Some(I::CellDependent)),
        (CachedDataItemKey::OutputDependent { task: p }, Some(I::OutputDependent)),
        (CachedDataItemKey::OutputDependency { target: p }, Some(I::Dependencies)),
        (CachedDataItemKey::CellDependency { target: cell_ref(p) }, Some(I::Dependencies)),
        (CachedDataItemKey::CollectiblesDependency { target: collectibles(p) }, Some(I::Dependencies)),
        (CachedDataItemKey::OutdatedOutputDependency { target: p }, Some(I::Dependencies)),
        (CachedDataItemKey::OutdatedCellDependency { target: cell_ref(p) }, Some(I::Dependencies)),
        (
            CachedDataItemKey::OutdatedCollectiblesDependency { target: collectibles(p) },
            Some(I::Dependencies),
        ),
        (
            CachedDataItemKey::CollectiblesDependent {
                collectible_type: TraitTypeId::new(2).unwrap(),
                task: p,
            },
            None,
        ),
        (CachedDataItemKey::Output {}, None),
        (CachedDataItemKey::Dirty {}, None),
        (CachedDataItemKey::DirtyWhenPersisted {}, None),
        (CachedDataItemKey::AggregationNumber {}, None),
        (CachedDataItemKey::AggregatedDirtyContainerCount {}, None),
        (CachedDataItemKey::AggregateRoot {}, None),
        (CachedDataItemKey::InProgress {}, None),
        (CachedDataItemKey::InProgressCell { cell: cell_id(3, 0) }, None),
        (CachedDataItemKey::Error {}, None),
    ];
    for (k, idx) in cases.iter() {
        assert_eq!(k.index(), *idx, "{:?}", k);
    }
}

#[test]
fn index_constants_by_kind_name() {
    let p = persistent_task();
    assert_eq!(CachedDataItemKey::Child { task: p }.index(), Some(indicies::Child));
    assert_eq!(CachedDataItemKey::OutdatedChild { task: p }.index(), Some(indicies::OutdatedChild));
    assert_eq!(
        CachedDataItemKey::OutdatedCollectible { collectible: collectible(p) }.index(),
        Some(indicies::OutdatedCollectible)
    );
    assert_eq!(
        CachedDataItemKey::CollectiblesDependency { target: collectibles(p) }.index(),
        Some(indicies::CollectibleDependency)
    );
    assert_eq!(indicies::OutdatedCollectibleDependency, CachedDataItemIndex::Dependencies);
    assert_eq!(indicies::CollectiblesDependent, CachedDataItemIndex::CollectiblesDependent);
}

#[test]
fn outdated_counterparts_share_index_and_category() {
    let p = persistent_task();
    let pairs = [
        (CachedDataItemKey::Child { task: p }, CachedDataItemKey::OutdatedChild { task: p }),
        (
            CachedDataItemKey::Collectible { collectible: collectible(p) },
            CachedDataItemKey::OutdatedCollectible { collectible: collectible(p) },
        ),
        (
            CachedDataItemKey::OutputDependency { target: p },
            CachedDataItemKey::OutdatedOutputDependency { target: p },
        ),
        (
            CachedDataItemKey::CellDependency { target: cell_ref(p) },
            CachedDataItemKey::OutdatedCellDependency { target: cell_ref(p) },
        ),
        (
            CachedDataItemKey::CollectiblesDependency { target: collectibles(p) },
            CachedDataItemKey::OutdatedCollectiblesDependency { target: collectibles(p) },
        ),
    ];
    for (current, outdated) in pairs.iter() {
        assert_eq!(current.index(), outdated.index());
        assert_eq!(current.category(), outdated.category());
        assert!(current.is_persistent());
        assert!(!outdated.is_persistent());
    }
}

#[test]
fn item_persistence() {
    let p = persistent_task();
    let t = transient_task();
    // An output is reported persistent exactly when it points to a transient task.
    assert!(CachedDataItem::Output { value: OutputValue::Output(t) }.is_persistent());
    assert!(!CachedDataItem::Output { value: OutputValue::Output(p) }.is_persistent());
    assert!(!CachedDataItem::Output { value: OutputValue::Error }.is_persistent());
    assert!(CachedDataItem::Child { task: p, value: () }.is_persistent());
    assert!(!CachedDataItem::Child { task: t, value: () }.is_persistent());
    assert!(CachedDataItem::Follower { task: p, value: 2 }.is_persistent());
    assert!(!CachedDataItem::Follower { task: t, value: 2 }.is_persistent());
    assert!(CachedDataItem::Dirty { value: () }.is_persistent());
    assert!(CachedDataItem::AggregationNumber { value: AggregationNumber::default() }
        .is_persistent());
    assert!(!CachedDataItem::OutdatedChild { task: p, value: () }.is_persistent());
    assert!(!error_item().is_persistent());
    assert!(!CachedDataItem::AggregateRoot { value: RootState::new(ActiveType::RootTask, p) }
        .is_persistent());
    assert!(!CachedDataItem::InProgressCell {
        cell: cell_id(3, 0),
        value: InProgressCellState::new(p, cell_id(3, 0)),
    }
    .is_persistent());
}

#[test]
fn only_cell_data_is_optional() {
    let r = TypedSharedReference(ValueTypeId::new(3).unwrap(), SharedReference(11));
    assert!(CachedDataItem::CellData { cell: cell_id(3, 0), value: r }.is_optional());
    assert!(!CachedDataItem::CellTypeMaxIndex { cell_type: ValueTypeId::new(3).unwrap(), value: 4 }
        .is_optional());
    assert!(!CachedDataItem::Dirty { value: () }.is_optional());
    assert!(!error_item().is_optional());
}

#[test]
fn split_and_join_round_trip() {
    let p = persistent_task();
    let r = TypedSharedReference(ValueTypeId::new(3).unwrap(), SharedReference(11));
    let item = CachedDataItem::CellData { cell: cell_id(3, 2), value: r };
    let key = item.key();
    assert_eq!(key, CachedDataItemKey::CellData { cell: cell_id(3, 2) });
    let (k, v) = item.into_key_and_value();
    assert_eq!(k, key);
    match &v {
        CachedDataItemValue::CellData { value } => assert_eq!(*value, r),
        _ => panic!("wrong value kind"),
    }
    let joined = CachedDataItem::from_key_and_value(k, v);
    match joined {
        CachedDataItem::CellData { cell, value } => {
            assert_eq!(cell, cell_id(3, 2));
            assert_eq!(value, r);
        }
        _ => panic!("wrong item kind"),
    }

    let item = CachedDataItem::CellDependent { cell: cell_id(4, 1), task: p, value: () };
    let (k, v) = item.into_key_and_value();
    assert_eq!(k, CachedDataItemKey::CellDependent { cell: cell_id(4, 1), task: p });
    match CachedDataItem::from_key_and_value(k, v) {
        CachedDataItem::CellDependent { cell, task, .. } => {
            assert_eq!(cell, cell_id(4, 1));
            assert_eq!(task, p);
        }
        _ => panic!("wrong item kind"),
    }

    let item = CachedDataItem::Follower { task: p, value: -3 };
    let copy = item.clone();
    let (k, v) = copy.into_key_and_value();
    match CachedDataItem::from_key_and_value(k, v) {
        CachedDataItem::Follower { task, value } => {
            assert_eq!(task, p);
            assert_eq!(value, -3);
        }
        _ => panic!("wrong item kind"),
    }
    match item {
        CachedDataItem::Follower { value, .. } => assert_eq!(value, -3),
        _ => panic!("clone changed the original"),
    }
}

#[test]
fn value_persistence_with_registry() {
    let mut registry = ValueTypeRegistry::new();
    let serializable =
        registry.register(ValueType { name: "Serializable".to_string(), serializable: true });
    let local = registry.register(ValueType { name: "Local".to_string(), serializable: false });
    assert_eq!(serializable.get(), 1);
    assert_eq!(local.get(), 2);
    assert_eq!(registry.get_value_type(local).name, "Local");
    assert!(registry.get_value_type(serializable).is_serializable());
    assert!(!registry.get_value_type(local).is_serializable());

    let v = CachedDataItemValue::CellData {
        value: TypedSharedReference(serializable, SharedReference(1)),
    };
    assert!(v.is_persistent(&registry));
    let v = CachedDataItemValue::CellData { value: TypedSharedReference(local, SharedReference(1)) };
    assert!(!v.is_persistent(&registry));
    let v = CachedDataItemValue::Output { value: OutputValue::Output(transient_task()) };
    assert!(!v.is_persistent(&registry));
    let v = CachedDataItemValue::Output { value: OutputValue::Output(persistent_task()) };
    assert!(v.is_persistent(&registry));
    let v = CachedDataItemValue::Error { value: SharedError { message: "e".to_string() } };
    assert!(v.is_persistent(&registry));
    let v = CachedDataItemValue::Dirty { value: () };
    assert!(v.is_persistent(&registry));
}

#[test]
fn new_scheduled_item() {
    let item = CachedDataItem::new_scheduled(|| "compute".to_string());
    match item {
        CachedDataItem::InProgress { value: InProgressState::Scheduled { done_event } } => {
            match done_event.description {
                EventDescription::Done { description } => assert_eq!(description, "compute done_event"),
                other => panic!("unexpected description {:?}", other),
            }
        }
        other => panic!("unexpected item {:?}", other),
    }
}

#[test]
fn new_scheduled_item_with_listener() {
    let (item, listener): (CachedDataItem, EventListener) =
        CachedDataItem::new_scheduled_with_listener(|| "compute".to_string(), || "waiter".to_string());
    assert_eq!(listener.note, "waiter");
    match listener.event {
        EventDescription::Done { description } => assert_eq!(description, "compute done_event"),
        other => panic!("unexpected description {:?}", other),
    }
    assert!(!item.is_persistent());
    assert_eq!(item.key(), CachedDataItemKey::InProgress {});
}

#[test]
fn state_constructors() {
    let p = persistent_task();
    let root = RootState::new(ActiveType::CachedActiveUntilClean, p);
    assert_eq!(root.ty, ActiveType::CachedActiveUntilClean);
    match root.all_clean_event.description {
        EventDescription::RootAllClean { task } => assert_eq!(task, p),
        other => panic!("unexpected description {:?}", other),
    }
    let cell = InProgressCellState::new(p, cell_id(5, 6));
    match cell.event.description {
        EventDescription::InProgressCell { task, cell } => {
            assert_eq!(task, p);
            assert_eq!(cell, cell_id(5, 6));
        }
        other => panic!("unexpected description {:?}", other),
    }
    let n = AggregationNumber::default();
    assert_eq!(n, AggregationNumber { base: 0, distance: 0, effective: 0 });
}

#[test]
fn update_record() {
    let p = persistent_task();
    let update = CachedDataUpdate {
        task: p,
        key: CachedDataItemKey::Follower { task: p },
        value: Some(CachedDataItemValue::Follower { value: 1 }),
        old_value: None,
    };
    assert_eq!(update.key.category(), TaskDataCategory::Meta);
    assert!(update.old_value.is_none());
    assert!(update.value.is_some());
}

#[test]
fn mutable_kinds_are_not_persisted() {
    let () = turbo_tasks_backend::allow_mut_access::InProgress;
    assert!(!CachedDataItemKey::InProgress {}.is_persistent());
    let item = CachedDataItem::new_scheduled(|| "work".to_string());
    assert!(!item.key().is_persistent());
}
