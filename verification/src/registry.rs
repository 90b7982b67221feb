//! The registry of value types, and the shared values that cells hold.

use vstd::prelude::*;
use crate::ids::ValueTypeId;

verus! {

/// A registered value type: its name, and whether its values can be serialized.
#[derive(Debug)]
pub struct ValueType {
    pub name: String,
    pub serializable: bool,
}

impl Clone for ValueType {
    fn clone(&self) -> (res: Self)
        ensures
            res == *self,
    {
        ValueType { name: self.name.clone(), serializable: self.serializable }
    }
}

impl ValueType {
    /// Whether values of this type can be written to persistent storage.
    pub fn is_serializable(&self) -> (res: bool)
        ensures
            res == self.serializable,
    {
        self.serializable
    }
}

/// The registry of value types. The type registered `n`-th (counting from one) has the id `n`.
#[derive(Debug)]
pub struct ValueTypeRegistry {
    types: Vec<ValueType>,
}

impl View for ValueTypeRegistry {
    type V = Seq<ValueType>;

    closed spec fn view(&self) -> Seq<ValueType> {
        self.types@
    }
}

impl ValueTypeRegistry {
    /// Whether `id` names a type of this registry.
    pub open spec fn is_registered(self, id: ValueTypeId) -> bool {
        1 <= id.value() <= self@.len()
    }

    /// The type that `id` names.
    pub open spec fn spec_get(self, id: ValueTypeId) -> ValueType {
        self@[id.value() - 1]
    }

    /// An empty registry.
    pub fn new() -> (res: ValueTypeRegistry)
        ensures
            res@ == Seq::<ValueType>::empty(),
    {
        ValueTypeRegistry { types: Vec::new() }
    }

    /// Registers `ty` and returns its id.
    pub fn register(&mut self, ty: ValueType) -> (id: ValueTypeId)
        requires
            old(self)@.len() < u32::MAX,
        ensures
            final(self)@ == old(self)@.push(ty),
            id.value() == final(self)@.len(),
            final(self).is_registered(id),
            final(self).spec_get(id) == ty,
    {
        self.types.push(ty);
        let n = self.types.len() as u32;
        ValueTypeId::new(n).unwrap()
    }

    /// The type that `id` names.
    pub fn get_value_type(&self, id: ValueTypeId) -> (res: &ValueType)
        requires
            self.is_registered(id),
        ensures
            *res == self.spec_get(id),
    {
        let i = id.get();
        &self.types[(i - 1) as usize]
    }
}

/// A shared value, known by its identity: two references are the same where they point to
/// the same value.
#[derive(Debug, Clone, Copy, PartialEq, Eq, Structural, Hash)]
pub struct SharedReference(pub u64);

/// A shared value together with the id of its value type.
#[derive(Debug, Clone, Copy, PartialEq, Eq, Structural, Hash)]
pub struct TypedSharedReference(pub ValueTypeId, pub SharedReference);

/// An error that a task ended with, shared between all that read it.
#[derive(Debug)]
pub struct SharedError {
    pub message: String,
}

impl Clone for SharedError {
    fn clone(&self) -> (res: Self)
        ensures
            res == *self,
    {
        SharedError { message: self.message.clone() }
    }
}

} // verus!
