//! Handles to the values and types that a machine owns.

use vstd::prelude::*;

verus! {

/// A handle to a runtime value. Two handles are the same value exactly when
/// their numbers are equal; copying a handle shares the value.
#[derive(Clone, Copy, PartialEq, Eq, Structural, Debug, Hash)]
pub struct PyObjectRef {
    pub id: usize,
}

/// A handle to a runtime type, by its place in the machine's table of types.
#[derive(Clone, Copy, PartialEq, Eq, Structural, Debug, Hash)]
pub struct PyTypeRef {
    pub id: usize,
}

impl PyObjectRef {
    /// The number that identifies the value.
    pub fn id(&self) -> (n: usize)
        ensures
            n == self.id,
    {
        self.id
    }

    /// Whether both handles name the same value.
    pub fn is(&self, other: &PyObjectRef) -> (same: bool)
        ensures
            same == (*self == *other),
    {
        self.id == other.id
    }
}

impl PyTypeRef {
    /// The place of the type in the machine's table.
    pub fn id(&self) -> (n: usize)
        ensures
            n == self.id,
    {
        self.id
    }
}

} // verus!
