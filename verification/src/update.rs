//! A change to an item of a task, as it is handed to persistent storage.

use vstd::prelude::*;
use crate::ids::TaskId;
use crate::item::{CachedDataItemKey, CachedDataItemValue};

verus! {

/// A change to the item `key` of task `task`: its new value (`None` where it was removed) and
/// its old value (`None` where it was absent).
#[derive(Debug)]
pub struct CachedDataUpdate {
    pub task: TaskId,
    pub key: CachedDataItemKey,
    pub value: Option<CachedDataItemValue>,
    pub old_value: Option<CachedDataItemValue>,
}

} // verus!
