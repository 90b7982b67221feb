# turbo_tasks_backend data model

The items that a task's storage holds in the task backend, verified with Verus.

The ids, events, value-type registry and shared values that the items hold come from the
task runtime (`turbo_tasks`); here they are modelled as plain data types of this crate, with
the invariants that the data model relies on (ids are never zero; the transient bit).

- `src/ids.rs`: task, cell, value type and trait type ids; transient task ids.
- `src/event.rs`, `src/state.rs`, `src/registry.rs`: the values that items hold.
- `src/item.rs`: the items, their keys and values, and splitting and joining them.
- `src/key.rs`: persistence, category and index of a key.
- `src/persistence.rs`: persistence of items and values; optional items.
- `src/scheduled.rs`: items that mark a task as scheduled.
- `src/laws.rs`: properties that hold of every item, key and value.
- `app/lib.rs`: serde copies of the persisted types, with conversions.
