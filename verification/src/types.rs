//! Runtime types, the objects that belong to them, and how a capability is
//! found along a type's ancestors.

use vstd::prelude::*;

use crate::object::PyObjectRef;
use crate::object::PyTypeRef;
use crate::slots::Capability;
use crate::slots::PyTypeSlots;

verus! {

/// A runtime type: its name, its own slot table, and its proper ancestors
/// in the order in which they are asked for a capability. The order is
/// taken as given; nothing here computes it.
pub struct PyType {
    pub name: String,
    pub slots: PyTypeSlots,
    pub mro: Vec<PyTypeRef>,
}

/// The state of a sequence iterator: the value it indexes and the position
/// of the next probe, or nothing any more once the sequence has ended.
#[derive(Clone, Copy, PartialEq, Eq, Structural, Debug)]
pub enum PySequenceIterator {
    Active { target: PyObjectRef, position: usize },
    Exhausted,
}

/// What an object holds besides its type.
#[derive(Clone, Copy, PartialEq, Eq, Structural, Debug)]
pub enum PyObjectPayload {
    /// Nothing that the machine looks into.
    Instance,
    /// The state of a sequence iterator.
    SequenceIterator(PySequenceIterator),
}

/// An object of the machine: its type and what it holds.
#[derive(Clone, Copy, PartialEq, Eq, Structural, Debug)]
pub struct PyObject {
    pub class: PyTypeRef,
    pub payload: PyObjectPayload,
}

/// The root type, which every machine has first and which supplies nothing.
pub open spec fn object_type() -> PyTypeRef {
    PyTypeRef { id: 0 }
}

/// The type of the machine's own sequence iterators.
pub open spec fn iterator_type() -> PyTypeRef {
    PyTypeRef { id: 1 }
}

/// Whether the type behind `t` itself has an entry for `capability`.
pub open spec fn supplies(types: Seq<PyType>, t: PyTypeRef, capability: Capability) -> bool {
    t.id < types.len() && types[t.id as int].slots.supplies(capability)
}

/// The first type in `order` that itself supplies `capability`.
pub open spec fn first_supplier(
    types: Seq<PyType>,
    order: Seq<PyTypeRef>,
    capability: Capability,
) -> Option<PyTypeRef>
    decreases order.len(),
{
    if order.len() == 0 {
        None
    } else if supplies(types, order[0], capability) {
        Some(order[0])
    } else {
        first_supplier(types, order.skip(1), capability)
    }
}

/// The order in which the type behind `t` and its ancestors are asked: the
/// type itself, then its ancestors as its definition lists them.
pub open spec fn linearization(types: Seq<PyType>, t: PyTypeRef) -> Seq<PyTypeRef> {
    seq![t] + types[t.id as int].mro@
}

/// The nearest type, from `t` upwards, that supplies `capability`.
/// A handle to no type of the table resolves to nothing.
pub open spec fn resolution(types: Seq<PyType>, t: PyTypeRef, capability: Capability) -> Option<
    PyTypeRef,
> {
    if t.id < types.len() {
        first_supplier(types, linearization(types, t), capability)
    } else {
        None
    }
}

/// The nearest supplier wins: `first_supplier` finds nothing exactly when no
/// type in the order supplies the capability, and what it finds is the
/// supplier that no other supplier precedes.
pub proof fn lemma_first_supplier_is_nearest(
    types: Seq<PyType>,
    order: Seq<PyTypeRef>,
    capability: Capability,
)
    ensures
        match first_supplier(types, order, capability) {
            None => forall|i: int| 0 <= i < order.len() ==> !supplies(types, #[trigger] order[i], capability),
            Some(owner) => exists|j: int|
                {
                    &&& 0 <= j < order.len()
                    &&& #[trigger] order[j] == owner
                    &&& supplies(types, owner, capability)
                    &&& forall|i: int| 0 <= i < j ==> !supplies(types, #[trigger] order[i], capability)
                },
        },
    decreases order.len(),
{
    if order.len() == 0 {
    } else if supplies(types, order[0], capability) {
        assert(order[0] == order[0]);
    } else {
        let rest = order.skip(1);
        lemma_first_supplier_is_nearest(types, rest, capability);
        assert(forall|i: int| 0 <= i < rest.len() ==> rest[i] == order[i + 1]);
        match first_supplier(types, rest, capability) {
            None => {
                assert forall|i: int| 0 <= i < order.len() implies !supplies(
                    types,
                    #[trigger] order[i],
                    capability,
                ) by {
                    if i > 0 {
                        assert(order[i] == rest[i - 1]);
                    }
                }
            },
            Some(owner) => {
                let j = choose|j: int|
                    {
                        &&& 0 <= j < rest.len()
                        &&& #[trigger] rest[j] == owner
                        &&& supplies(types, owner, capability)
                        &&& forall|i: int| 0 <= i < j ==> !supplies(types, #[trigger] rest[i], capability)
                    };
                assert(order[j + 1] == owner);
                assert forall|i: int| 0 <= i < j + 1 implies !supplies(
                    types,
                    #[trigger] order[i],
                    capability,
                ) by {
                    if i > 0 {
                        assert(order[i] == rest[i - 1]);
                    }
                }
            },
        }
    }
}

/// What `first_supplier` finds depends only on the types that the order
/// names: two tables that agree on them give the same answer.
pub proof fn lemma_first_supplier_frame(
    before: Seq<PyType>,
    after: Seq<PyType>,
    order: Seq<PyTypeRef>,
    capability: Capability,
)
    requires
        forall|i: int| 0 <= i < order.len() ==> supplies(before, #[trigger] order[i], capability)
            == supplies(after, order[i], capability),
    ensures
        first_supplier(before, order, capability) == first_supplier(after, order, capability),
    decreases order.len(),
{
    if order.len() > 0 {
        assert(supplies(before, order[0], capability) == supplies(after, order[0], capability));
        let rest = order.skip(1);
        assert forall|i: int| 0 <= i < rest.len() implies supplies(
            before,
            #[trigger] rest[i],
            capability,
        ) == supplies(after, rest[i], capability) by {
            assert(rest[i] == order[i + 1]);
        }
        lemma_first_supplier_frame(before, after, rest, capability);
    }
}

} // verus!
