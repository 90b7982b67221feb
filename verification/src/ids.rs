//! Identifiers of tasks, cells, value types and trait types.

use vstd::prelude::*;

verus! {

/// The bit that marks the id of a transient task: one that lives only in this process
/// and is never written to persistent storage.
pub const TRANSIENT_TASK_BIT: u32 = 0x8000_0000;

/// The id of a task. Ids are never zero.
#[derive(Debug, Clone, Copy, PartialEq, Eq, Structural, Hash)]
pub struct TaskId {
    id: u32,
}

impl TaskId {
    #[verifier::type_invariant]
    spec fn nonzero(self) -> bool {
        self.id != 0
    }

    /// The number that this id stands for.
    pub closed spec fn value(self) -> u32 {
        self.id
    }

    /// Whether this id names a transient task: its number has the transient bit set.
    pub open spec fn spec_is_transient(self) -> bool {
        self.value() >= TRANSIENT_TASK_BIT
    }

    /// Makes the id for `id`; `None` where `id` is zero.
    pub fn new(id: u32) -> (res: Option<TaskId>)
        ensures
            id == 0 <==> res is None,
            res matches Some(t) ==> t.value() == id,
    {
        if id == 0 {
            None
        } else {
            Some(TaskId { id })
        }
    }

    /// The number that this id stands for.
    pub fn get(&self) -> (res: u32)
        ensures
            res == self.value(),
            res != 0,
    {
        proof {
            use_type_invariant(self);
        }
        self.id
    }

    /// Whether this is the id of a transient task.
    pub fn is_transient(&self) -> (res: bool)
        ensures
            res == self.spec_is_transient(),
    {
        let id = self.id;
        assert((id & 0x8000_0000u32 != 0) == (id >= 0x8000_0000u32)) by (bit_vector);
        id & TRANSIENT_TASK_BIT != 0
    }
}

/// The id of a registered value type. Ids are never zero.
#[derive(Debug, Clone, Copy, PartialEq, Eq, Structural, Hash)]
pub struct ValueTypeId {
    id: u32,
}

impl ValueTypeId {
    #[verifier::type_invariant]
    spec fn nonzero(self) -> bool {
        self.id != 0
    }

    /// The number that this id stands for.
    pub closed spec fn value(self) -> u32 {
        self.id
    }

    /// Makes the id for `id`; `None` where `id` is zero.
    pub fn new(id: u32) -> (res: Option<ValueTypeId>)
        ensures
            id == 0 <==> res is None,
            res matches Some(t) ==> t.value() == id,
    {
        if id == 0 {
            None
        } else {
            Some(ValueTypeId { id })
        }
    }

    /// The number that this id stands for.
    pub fn get(&self) -> (res: u32)
        ensures
            res == self.value(),
            res != 0,
    {
        proof {
            use_type_invariant(self);
        }
        self.id
    }
}

/// The id of a registered trait type. Ids are never zero.
#[derive(Debug, Clone, Copy, PartialEq, Eq, Structural, Hash)]
pub struct TraitTypeId {
    id: u32,
}

impl TraitTypeId {
    #[verifier::type_invariant]
    spec fn nonzero(self) -> bool {
        self.id != 0
    }

    /// The number that this id stands for.
    pub closed spec fn value(self) -> u32 {
        self.id
    }

    /// Makes the id for `id`; `None` where `id` is zero.
    pub fn new(id: u32) -> (res: Option<TraitTypeId>)
        ensures
            id == 0 <==> res is None,
            res matches Some(t) ==> t.value() == id,
    {
        if id == 0 {
            None
        } else {
            Some(TraitTypeId { id })
        }
    }

    /// The number that this id stands for.
    pub fn get(&self) -> (res: u32)
        ensures
            res == self.value(),
            res != 0,
    {
        proof {
            use_type_invariant(self);
        }
        self.id
    }
}

/// A cell of a task: the value type that it holds and its index among the cells of that type.
#[derive(Debug, Clone, Copy, PartialEq, Eq, Structural, Hash)]
pub struct CellId {
    pub type_id: ValueTypeId,
    pub index: u32,
}

} // verus!
