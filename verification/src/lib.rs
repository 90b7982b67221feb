//! The data model of a task in the task backend: the items that a task's storage holds,
//! their keys and values, which of them are persisted, and how they are indexed.

pub mod ids;
pub mod event;
pub mod registry;
pub mod state;
pub mod item;
pub mod key;
pub mod persistence;
pub mod scheduled;
pub mod update;
#[allow(non_upper_case_globals, dead_code)]
pub mod indicies;
#[allow(non_upper_case_globals, dead_code)]
pub mod allow_mut_access;
pub mod laws;
pub mod kind_laws;
