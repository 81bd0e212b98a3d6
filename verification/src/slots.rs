//! The table of optional capabilities that each type carries, and the
//! functions that fill it.

use vstd::prelude::*;

use crate::exceptions::PyResult;
use crate::iter_return::PyIterReturn;
use crate::object::PyObjectRef;

verus! {

/// A function that a type definition supplies for one of its capabilities.
///
/// It is called with the value and with nothing of the machine: what it
/// needs beyond the value, it holds itself. To the runtime such a function
/// is a relation between what it is called with and what it returns: it may
/// keep state of its own, so two calls with the same arguments may differ.
/// `rel` says which results are possible. An implementation that leaves
/// `rel` as it is promises nothing.
pub trait SlotFunction<Args, Ret> {
    /// Whether a call with `args` may return `ret`.
    open spec fn rel(&self, args: Args, ret: Ret) -> bool {
        true
    }

    fn call(&self, args: Args) -> (ret: Ret)
        ensures
            self.rel(args, ret),
    ;
}

/// Makes an iterator from a value.
pub type IterFunc = Box<dyn SlotFunction<PyObjectRef, PyResult>>;

/// Advances a value that is an iterator.
pub type IterNextFunc = Box<dyn SlotFunction<PyObjectRef, PyResult<PyIterReturn>>>;

/// Indexes a value at a position counted from zero.
pub type GetItemFunc = Box<dyn SlotFunction<(PyObjectRef, usize), PyResult>>;

/// Estimates how many elements a value has left to give.
pub type LengthHintFunc = Box<dyn SlotFunction<PyObjectRef, PyResult<Option<usize>>>>;

/// A way to advance that is built on a computation of the older style, which
/// gives an element as a plain value and ends the sequence by raising the
/// end-of-sequence signal. Each call runs the computation once and reads
/// its outcome as [`PyIterReturn::general_outcome`] says.
pub struct IterNextWrapper<F> {
    pub body: F,
}

impl<F: SlotFunction<PyObjectRef, PyResult>> SlotFunction<
    PyObjectRef,
    PyResult<PyIterReturn>,
> for IterNextWrapper<F> {
    open spec fn rel(&self, args: PyObjectRef, ret: PyResult<PyIterReturn>) -> bool {
        exists|outcome: PyResult|
            {
                &&& #[trigger] self.body.rel(args, outcome)
                &&& ret == PyIterReturn::general_outcome(outcome)
            }
    }

    fn call(&self, args: PyObjectRef) -> (ret: PyResult<PyIterReturn>) {
        let outcome = self.body.call(args);
        let ghost witness = outcome;
        let ret = PyIterReturn::from_pyresult(outcome);
        assert(self.body.rel(args, witness) && ret == PyIterReturn::general_outcome(witness));
        ret
    }
}

/// How a type makes an iterator from one of its values.
pub enum IterSlot {
    /// The value is an iterator already, and is its own iterator.
    SelfIter,
    /// By a function that the type's definition supplied.
    Native(IterFunc),
}

/// How a type advances its values.
pub enum IterNextSlot {
    /// By indexing another value at successive positions. Only the
    /// machine's own sequence iterator type advances so.
    SequenceIterator,
    /// By a function that the type's definition supplied.
    Native(IterNextFunc),
}

/// The capabilities that a type may supply.
#[derive(Clone, Copy, PartialEq, Eq, Structural, Debug, Hash)]
pub enum Capability {
    /// Making an iterator from a value.
    GetIterator,
    /// Producing the next element.
    Advance,
    /// Indexing by position, the older way to be iterable.
    GetItem,
    /// Estimating the number of elements left. Advisory only.
    LengthHint,
}

/// The slot table of one type. An empty entry means that the type itself
/// does not supply the capability; an ancestor may.
pub struct PyTypeSlots {
    pub iter: Option<IterSlot>,
    pub iternext: Option<IterNextSlot>,
    pub getitem: Option<GetItemFunc>,
    pub length_hint: Option<LengthHintFunc>,
}

impl PyTypeSlots {
    /// Whether the table has an entry for `capability`.
    pub open spec fn supplies(self, capability: Capability) -> bool {
        match capability {
            Capability::GetIterator => self.iter is Some,
            Capability::Advance => self.iternext is Some,
            Capability::GetItem => self.getitem is Some,
            Capability::LengthHint => self.length_hint is Some,
        }
    }

    /// Whether the table advances by indexing, as only the machine's own
    /// sequence iterator type may.
    pub open spec fn advances_by_indexing(self) -> bool {
        self.iternext matches Some(IterNextSlot::SequenceIterator)
    }

    /// The table with no entry.
    pub fn new() -> (slots: PyTypeSlots)
        ensures
            slots.iter is None,
            slots.iternext is None,
            slots.getitem is None,
            slots.length_hint is None,
    {
        PyTypeSlots { iter: None, iternext: None, getitem: None, length_hint: None }
    }

    /// The table of a type whose values are their own iterators.
    pub fn with_self_iter(self) -> (slots: PyTypeSlots)
        ensures
            slots.iter === Some(IterSlot::SelfIter),
            slots.iternext == self.iternext,
            slots.getitem == self.getitem,
            slots.length_hint == self.length_hint,
    {
        PyTypeSlots {
            iter: Some(IterSlot::SelfIter),
            iternext: self.iternext,
            getitem: self.getitem,
            length_hint: self.length_hint,
        }
    }

    /// The table with `f` as its iterator hook.
    pub fn with_iter(self, f: IterFunc) -> (slots: PyTypeSlots)
        ensures
            slots.iter === Some(IterSlot::Native(f)),
            slots.iternext == self.iternext,
            slots.getitem == self.getitem,
            slots.length_hint == self.length_hint,
    {
        PyTypeSlots {
            iter: Some(IterSlot::Native(f)),
            iternext: self.iternext,
            getitem: self.getitem,
            length_hint: self.length_hint,
        }
    }

    /// The table with `f` as its way to advance.
    pub fn with_iternext(self, f: IterNextFunc) -> (slots: PyTypeSlots)
        ensures
            slots.iter == self.iter,
            slots.iternext === Some(IterNextSlot::Native(f)),
            slots.getitem == self.getitem,
            slots.length_hint == self.length_hint,
    {
        PyTypeSlots {
            iter: self.iter,
            iternext: Some(IterNextSlot::Native(f)),
            getitem: self.getitem,
            length_hint: self.length_hint,
        }
    }

    /// The table with `f` as its way to be indexed.
    pub fn with_getitem(self, f: GetItemFunc) -> (slots: PyTypeSlots)
        ensures
            slots.iter == self.iter,
            slots.iternext == self.iternext,
            slots.getitem === Some(f),
            slots.length_hint == self.length_hint,
    {
        PyTypeSlots {
            iter: self.iter,
            iternext: self.iternext,
            getitem: Some(f),
            length_hint: self.length_hint,
        }
    }

    /// The table with `f` as its estimate of the elements left.
    pub fn with_length_hint(self, f: LengthHintFunc) -> (slots: PyTypeSlots)
        ensures
            slots.iter == self.iter,
            slots.iternext == self.iternext,
            slots.getitem == self.getitem,
            slots.length_hint === Some(f),
    {
        PyTypeSlots {
            iter: self.iter,
            iternext: self.iternext,
            getitem: self.getitem,
            length_hint: Some(f),
        }
    }

    /// Whether the table has an entry for `capability`.
    pub fn has(&self, capability: Capability) -> (b: bool)
        ensures
            b == self.supplies(capability),
    {
        match capability {
            Capability::GetIterator => self.iter.is_some(),
            Capability::Advance => self.iternext.is_some(),
            Capability::GetItem => self.getitem.is_some(),
            Capability::LengthHint => self.length_hint.is_some(),
        }
    }
}

} // verus!
