//! The iterator protocol: turning a value into an iterator, advancing it, and
//! draining it as a native sequence.

use std::marker::PhantomData;
use vstd::prelude::*;

use crate::exceptions::ExceptionView;
use crate::exceptions::PyBaseException;
use crate::exceptions::PyResult;
use crate::iter_return::PyIterReturn;
use crate::object::PyObjectRef;
use crate::slots::Capability;
use crate::slots::IterNextSlot;
use crate::slots::IterSlot;
use crate::types::PyObject;
use crate::types::PyObjectPayload;
use crate::types::PySequenceIterator;
use crate::types::iterator_type;
use crate::vm::VirtualMachine;
use crate::vm::VmView;
use crate::vm::lemma_resolution_in_table;

verus! {

/// A handle to a value that is used as an iterator.
///
/// [`PyObjectRef::get_iter`] only hands out handles to values that can be
/// advanced. [`PyIter::new`] wraps any value unchecked, and a type may be
/// asked again at each pull, so every pull resolves the capability anew.
#[derive(Clone, Copy, PartialEq, Eq, Debug)]
pub struct PyIter {
    obj: PyObjectRef,
}

impl View for PyIter {
    type V = PyObjectRef;

    closed spec fn view(&self) -> PyObjectRef {
        self.obj
    }
}

impl PySequenceIterator {
    /// The state after a pull that gave `r`: an element moves the position
    /// on by one, the end of the sequence ends the iterator for good, and a
    /// failure changes nothing. Past the last position that the machine can
    /// count there is nothing to probe, so the iterator ends there too.
    pub open spec fn after(self, r: PyResult<PyIterReturn>) -> PySequenceIterator {
        match self {
            PySequenceIterator::Exhausted => PySequenceIterator::Exhausted,
            PySequenceIterator::Active { target, position } => match r {
                Ok(PyIterReturn::Return(_)) => if position < usize::MAX {
                    PySequenceIterator::Active { target, position: (position + 1) as usize }
                } else {
                    PySequenceIterator::Exhausted
                },
                Ok(PyIterReturn::StopIteration(_)) => PySequenceIterator::Exhausted,
                Err(_) => self,
            },
        }
    }

    /// An iterator over `target`, at its first position.
    pub fn new(target: PyObjectRef) -> (state: PySequenceIterator)
        ensures
            state == (PySequenceIterator::Active { target, position: 0 }),
    {
        PySequenceIterator::Active { target, position: 0 }
    }

    /// Computes [`Self::after`].
    pub fn step(self, r: &PyResult<PyIterReturn>) -> (state: PySequenceIterator)
        ensures
            state == self.after(*r),
    {
        match self {
            PySequenceIterator::Exhausted => PySequenceIterator::Exhausted,
            PySequenceIterator::Active { target, position } => match r {
                Ok(PyIterReturn::Return(_)) => {
                    if position < usize::MAX {
                        PySequenceIterator::Active { target, position: position + 1 }
                    } else {
                        PySequenceIterator::Exhausted
                    }
                },
                Ok(PyIterReturn::StopIteration(_)) => PySequenceIterator::Exhausted,
                Err(_) => self,
            },
        }
    }
}

impl VmView {
    /// Whether the value behind `obj` can be advanced: its type, or an
    /// ancestor of it, supplies the capability.
    pub open spec fn is_iterator(self, obj: PyObjectRef) -> bool {
        self.resolve(obj, Capability::Advance) is Some
    }

    /// Whether one pull on the sequence iterator behind `zelf` may give `r`
    /// and leave the machine as `post`.
    ///
    /// An active iterator indexes its target at its position, and reads the
    /// outcome as [`PyIterReturn::indexing_outcome`] says. One that has ended
    /// gives the end again, with no final value, and touches nothing.
    pub open spec fn sequence_advance(
        self,
        zelf: PyObjectRef,
        post: VmView,
        r: PyResult<PyIterReturn>,
    ) -> bool {
        match self.payload_of(zelf) {
            PyObjectPayload::SequenceIterator(PySequenceIterator::Active { target, position }) => {
                &&& self.getitem_slot(target) matches Some(f)
                &&& exists|outcome: PyResult|
                    {
                        &&& #[trigger] f.rel((target, position), outcome)
                        &&& r == PyIterReturn::indexing_outcome(outcome)
                    }
                &&& post == self.with_payload(
                    zelf,
                    PyObjectPayload::SequenceIterator(
                        (PySequenceIterator::Active { target, position }).after(r),
                    ),
                )
            },
            PyObjectPayload::SequenceIterator(PySequenceIterator::Exhausted) => {
                &&& r == Ok::<PyIterReturn, PyBaseException>(PyIterReturn::StopIteration(None))
                &&& post == self
            },
            PyObjectPayload::Instance => false,
        }
    }

    /// Whether one pull on the value behind `obj` may give `r` and leave the
    /// machine as `post`.
    ///
    /// Where no type from the value's type upwards supplies the capability,
    /// the pull fails and names the type. Otherwise the nearest supplier
    /// decides, and what it gives is the result, unchanged.
    pub open spec fn advance(self, obj: PyObjectRef, post: VmView, r: PyResult<PyIterReturn>) -> bool {
        match self.iternext_slot(obj) {
            None => {
                &&& post == self
                &&& r matches Err(err)
                &&& err@ == ExceptionView::not_an_iterator(self.class_name(obj))
            },
            Some(IterNextSlot::Native(f)) => post == self && f.rel(obj, r),
            Some(IterNextSlot::SequenceIterator) => self.sequence_advance(obj, post, r),
        }
    }

    /// Whether `r` is what the outcome of the iterator hook of the value
    /// behind `target` comes to: its failure, unchanged; a handle to the
    /// value it returned, if that value can be advanced; else the failure
    /// that names the type of `target`, whose hook it was that misbehaved.
    pub open spec fn checked_candidate(
        self,
        target: PyObjectRef,
        outcome: PyResult,
        r: PyResult<PyIter>,
    ) -> bool {
        match outcome {
            Err(err) => r == Err::<PyIter, PyBaseException>(err),
            Ok(candidate) => if self.is_iterator(candidate) {
                r matches Ok(it) && it@ == candidate
            } else {
                r matches Err(err) && err@ == ExceptionView::bad_iterator_protocol(
                    self.class_name(target),
                )
            },
        }
    }

    /// Whether making an iterator from the value behind `target` may give `r`
    /// and leave the machine as `post`.
    ///
    /// The iterator hook of the value's type comes first: what it returns is
    /// checked and handed out, and a hook that returns what cannot be
    /// advanced fails the whole, with no second try. Only where there is no
    /// hook, a value that can be indexed gets a new sequence iterator at
    /// position zero. A value with neither is not iterable.
    pub open spec fn negotiation(self, target: PyObjectRef, post: VmView, r: PyResult<PyIter>) -> bool {
        match self.iter_slot(target) {
            Some(IterSlot::SelfIter) => post == self && self.checked_candidate(target, Ok(target), r),
            Some(IterSlot::Native(f)) => {
                &&& post == self
                &&& exists|outcome: PyResult|
                    {
                        &&& #[trigger] f.rel(target, outcome)
                        &&& self.checked_candidate(target, outcome, r)
                    }
            },
            None => if self.resolve(target, Capability::GetItem) is Some {
                &&& r matches Ok(it)
                &&& it@ == (PyObjectRef { id: self.objects.len() as usize })
                &&& post == self.with_object(
                    PyObject {
                        class: iterator_type(),
                        payload: PyObjectPayload::SequenceIterator(
                            PySequenceIterator::Active { target, position: 0 },
                        ),
                    },
                )
            } else {
                &&& post == self
                &&& r matches Err(err)
                &&& err@ == ExceptionView::not_iterable(self.class_name(target))
            },
        }
    }

    /// Whether asking the value behind `obj` for the number of elements it
    /// has left may give `hint`. A value whose type has no way to estimate
    /// gives no number.
    pub open spec fn length_hint_outcome(self, obj: PyObjectRef, hint: PyResult<Option<usize>>) -> bool {
        match self.length_hint_slot(obj) {
            Some(f) => f.rel(obj, hint),
            None => hint == Ok::<Option<usize>, PyBaseException>(None),
        }
    }
}

/// A value that can be made from a runtime value.
pub trait TryFromObject: Sized {
    /// Whether making a `Self` from the value behind `obj` may give `r` and
    /// leave the machine as `post`.
    spec fn converts(pre: VmView, obj: PyObjectRef, post: VmView, r: PyResult<Self>) -> bool;

    fn try_from_object(vm: &mut VirtualMachine, obj: PyObjectRef) -> (r: PyResult<Self>)
        requires
            old(vm).wf(),
        ensures
            final(vm).wf(),
            Self::converts(old(vm)@, obj, final(vm)@, r),
    ;
}

impl TryFromObject for PyObjectRef {
    open spec fn converts(pre: VmView, obj: PyObjectRef, post: VmView, r: PyResult<Self>) -> bool {
        post == pre && r == Ok::<PyObjectRef, PyBaseException>(obj)
    }

    /// A runtime value is itself.
    fn try_from_object(vm: &mut VirtualMachine, obj: PyObjectRef) -> (r: PyResult<Self>) {
        Ok(obj)
    }
}

impl TryFromObject for PyIter {
    open spec fn converts(pre: VmView, obj: PyObjectRef, post: VmView, r: PyResult<Self>) -> bool {
        pre.negotiation(obj, post, r)
    }

    /// Makes an iterator from the value, as a loop over it and the builtin
    /// that makes iterators both do.
    fn try_from_object(vm: &mut VirtualMachine, obj: PyObjectRef) -> (r: PyResult<Self>) {
        let class = vm.class_of(&obj);
        match vm.mro_find(class, Capability::GetIterator) {
            Some(owner) => {
                let outcome = match &vm.slots_of(owner).iter {
                    Some(IterSlot::SelfIter) => Ok(obj),
                    Some(IterSlot::Native(getiter)) => getiter.call(obj),
                    None => unreached(),
                };
                PyIter::try_from_candidate(&obj, outcome, vm)
            },
            None => match vm.mro_find(class, Capability::GetItem) {
                Some(_) => {
                    let state = PySequenceIterator::new(obj);
                    let it = vm.push_object(
                        PyObject {
                            class: vm.iterator_type(),
                            payload: PyObjectPayload::SequenceIterator(state),
                        },
                    );
                    Ok(PyIter::new(it))
                },
                None => Err(PyBaseException::not_iterable(vm.class_name(&obj))),
            },
        }
    }
}

impl PyObjectRef {
    /// Takes a value and returns an iterator for it. This is mostly a new
    /// iterator; where the value is an iterator whose type says so, it is
    /// the value itself.
    pub fn get_iter(self, vm: &mut VirtualMachine) -> (r: PyResult<PyIter>)
        requires
            old(vm).wf(),
        ensures
            final(vm).wf(),
            old(vm)@.negotiation(self, final(vm)@, r),
    {
        PyIter::try_from_object(vm, self)
    }
}

impl PyIter {
    /// The value behind the handle.
    pub fn into_object(self) -> (obj: PyObjectRef)
        ensures
            obj == self@,
    {
        self.obj
    }

    /// Whether the value behind `obj` can be advanced.
    pub fn check(obj: &PyObjectRef, vm: &VirtualMachine) -> (b: bool)
        requires
            vm.wf(),
        ensures
            b == vm@.is_iterator(*obj),
    {
        let class = vm.class_of(obj);
        vm.mro_find(class, Capability::Advance).is_some()
    }

    /// Wraps a value without checking it.
    pub fn new(obj: PyObjectRef) -> (it: PyIter)
        ensures
            it@ == obj,
    {
        PyIter { obj }
    }

    /// The value behind the handle.
    pub fn as_object(&self) -> (obj: &PyObjectRef)
        ensures
            *obj == self@,
    {
        &self.obj
    }

    /// What the outcome of the iterator hook of the value behind `target`
    /// comes to: see [`VmView::checked_candidate`].
    pub fn try_from_candidate(target: &PyObjectRef, outcome: PyResult, vm: &VirtualMachine) -> (r:
        PyResult<PyIter>)
        requires
            vm.wf(),
        ensures
            vm@.checked_candidate(*target, outcome, r),
    {
        match outcome {
            Err(err) => Err(err),
            Ok(candidate) => {
                if PyIter::check(&candidate, vm) {
                    Ok(PyIter { obj: candidate })
                } else {
                    Err(PyBaseException::bad_iterator_protocol(vm.class_name(target)))
                }
            },
        }
    }

    /// Pulls once on the iterator: see [`VmView::advance`].
    pub fn next(&self, vm: &mut VirtualMachine) -> (r: PyResult<PyIterReturn>)
        requires
            old(vm).wf(),
        ensures
            final(vm).wf(),
            old(vm)@.advance(self@, final(vm)@, r),
    {
        let class = vm.class_of(&self.obj);
        let owner = match vm.mro_find(class, Capability::Advance) {
            Some(owner) => owner,
            None => {
                return Err(PyBaseException::not_an_iterator(vm.class_name(&self.obj)));
            },
        };
        match &vm.slots_of(owner).iternext {
            Some(IterNextSlot::Native(iternext)) => {
                return iternext.call(self.obj);
            },
            Some(IterNextSlot::SequenceIterator) => {},
            None => {
                return unreached();
            },
        }
        proof {
            lemma_resolution_in_table(vm@, class, Capability::Advance);
            assert(vm@.type_wf(owner.id as int));
            assert(class == iterator_type());
            if self.obj.id < vm@.objects.len() {
                assert(vm@.object_wf(self.obj.id as int));
            }
        }
        sequence_next(vm, self.obj)
    }

    /// Makes a native sequence of the iterator, after asking once how many
    /// elements are left. Where asking fails, the failure is the result.
    pub fn iter<T: TryFromObject>(&self, vm: &VirtualMachine) -> (r: PyResult<PyIterIter<T>>)
        requires
            vm.wf(),
        ensures
            exists|hint: PyResult<Option<usize>>|
                {
                    &&& #[trigger] vm@.length_hint_outcome(self@, hint)
                    &&& match hint {
                        Ok(length_hint) => r matches Ok(seq) && seq@ == (PyIterIterView {
                            obj: self@,
                            length_hint,
                            spent: false,
                        }),
                        Err(err) => r matches Err(e) && e == err,
                    }
                },
    {
        let hint = vm.length_hint(self.obj);
        assert(vm@.length_hint_outcome(self@, hint));
        match hint {
            Ok(length_hint) => Ok(PyIterIter::new(PyIter::new(self.obj), length_hint)),
            Err(err) => Err(err),
        }
    }
}

/// A value that stands for a runtime value and can be handed on as it.
pub trait IntoPyObject: Sized {
    /// The runtime value that `self` stands for.
    spec fn as_pyobject(self) -> PyObjectRef;

    fn into_pyobject(self) -> (obj: PyObjectRef)
        ensures
            obj == self.as_pyobject(),
    ;
}

impl IntoPyObject for PyObjectRef {
    open spec fn as_pyobject(self) -> PyObjectRef {
        self
    }

    fn into_pyobject(self) -> (obj: PyObjectRef) {
        self
    }
}

impl IntoPyObject for PyIter {
    open spec fn as_pyobject(self) -> PyObjectRef {
        self@
    }

    /// The value that is iterated.
    fn into_pyobject(self) -> (obj: PyObjectRef) {
        self.into_object()
    }
}

impl std::ops::Deref for PyIter {
    type Target = PyObjectRef;

    fn deref(&self) -> (obj: &PyObjectRef)
        ensures
            *obj == self@,
    {
        &self.obj
    }
}

/// Pulls once on the sequence iterator behind `zelf`.
fn sequence_next(vm: &mut VirtualMachine, zelf: PyObjectRef) -> (r: PyResult<PyIterReturn>)
    requires
        old(vm).wf(),
        zelf.id < old(vm)@.objects.len(),
        old(vm)@.payload_of(zelf) is SequenceIterator,
    ensures
        final(vm).wf(),
        old(vm)@.sequence_advance(zelf, final(vm)@, r),
{
    match vm.payload_of(&zelf) {
        PyObjectPayload::SequenceIterator(PySequenceIterator::Active { target, position }) => {
            proof {
                assert(vm@.object_wf(zelf.id as int));
            }
            let state = PySequenceIterator::Active { target, position };
            let class = vm.class_of(&target);
            let outcome = match vm.mro_find(class, Capability::GetItem) {
                Some(owner) => match &vm.slots_of(owner).getitem {
                    Some(getitem) => getitem.call((target, position)),
                    None => unreached(),
                },
                None => unreached(),
            };
            let ghost witness = outcome;
            let r = PyIterReturn::from_getitem_result(outcome);
            let next_state = state.step(&r);
            vm.set_sequence_state(zelf, next_state);
            proof {
                let f = old(vm)@.getitem_slot(target)->0;
                assert(f.rel((target, position), witness));
            }
            r
        },
        PyObjectPayload::SequenceIterator(PySequenceIterator::Exhausted) => Ok(
            PyIterReturn::StopIteration(None),
        ),
        PyObjectPayload::Instance => unreached(),
    }
}

/// What a native sequence over an iterator holds, as mathematical values.
pub struct PyIterIterView {
    /// The value that is advanced.
    pub obj: PyObjectRef,
    /// The estimate of the number of elements, taken once, when the
    /// sequence was made. It may be stale or wrong.
    pub length_hint: Option<usize>,
    /// Whether the end of the sequence has been seen.
    pub spent: bool,
}

/// An iterator as a native, lazily evaluated sequence of `T`.
pub struct PyIterIter<T> {
    obj: PyIter,
    length_hint: Option<usize>,
    spent: bool,
    _phantom: PhantomData<T>,
}

impl<T> View for PyIterIter<T> {
    type V = PyIterIterView;

    closed spec fn view(&self) -> PyIterIterView {
        PyIterIterView { obj: self.obj@, length_hint: self.length_hint, spent: self.spent }
    }
}

impl PyIterIterView {
    /// Whether one pull on the sequence may give `r` and leave the sequence
    /// as `post` and the machine as `vm_post`.
    ///
    /// A spent sequence gives nothing and touches nothing: it does not
    /// advance its iterator again. Otherwise the iterator is advanced once.
    /// An element is converted to `T` and given. The end of the sequence
    /// gives nothing, whatever final value came with it, and the sequence is
    /// spent from then on. A failure is given as it is.
    pub open spec fn pull<T: TryFromObject>(
        self,
        vm_pre: VmView,
        post: PyIterIterView,
        vm_post: VmView,
        r: Option<PyResult<T>>,
    ) -> bool {
        if self.spent {
            &&& r is None
            &&& post == self
            &&& vm_post == vm_pre
        } else {
            exists|vm_mid: VmView, advanced: PyResult<PyIterReturn>|
                {
                    &&& #[trigger] vm_pre.advance(self.obj, vm_mid, advanced)
                    &&& match advanced {
                        Ok(PyIterReturn::Return(obj)) => {
                            &&& r matches Some(converted)
                            &&& T::converts(vm_mid, obj, vm_post, converted)
                            &&& post == self
                        },
                        Ok(PyIterReturn::StopIteration(_)) => {
                            &&& r is None
                            &&& post == (PyIterIterView { spent: true, ..self })
                            &&& vm_post == vm_mid
                        },
                        Err(err) => {
                            &&& r matches Some(Err(e))
                            &&& e == err
                            &&& post == self
                            &&& vm_post == vm_mid
                        },
                    }
                }
        }
    }
}

impl<T> PyIterIter<T> {
    /// A sequence over `obj` that has not been pulled on, with the given
    /// estimate of its length.
    pub fn new(obj: PyIter, length_hint: Option<usize>) -> (seq: PyIterIter<T>)
        ensures
            seq@ == (PyIterIterView { obj: obj@, length_hint, spent: false }),
    {
        PyIterIter { obj, length_hint, spent: false, _phantom: PhantomData }
    }

    /// The bounds on the number of elements left: zero where there is no
    /// estimate, and the estimate itself as both bounds where there is one.
    /// Neither bound is exact.
    pub fn size_hint(&self) -> (bounds: (usize, Option<usize>))
        ensures
            bounds.0 == match self@.length_hint {
                Some(n) => n,
                None => 0,
            },
            bounds.1 == self@.length_hint,
    {
        match self.length_hint {
            Some(n) => (n, Some(n)),
            None => (0, None),
        }
    }
}

impl<T: TryFromObject> PyIterIter<T> {
    /// Pulls once on the sequence: see [`PyIterIterView::pull`].
    pub fn next(&mut self, vm: &mut VirtualMachine) -> (r: Option<PyResult<T>>)
        requires
            old(vm).wf(),
        ensures
            final(vm).wf(),
            old(self)@.pull::<T>(old(vm)@, final(self)@, final(vm)@, r),
    {
        if self.spent {
            return None;
        }
        let advanced = self.obj.next(vm);
        let ghost vm_mid = vm@;
        let ghost witness = advanced;
        assert(old(vm)@.advance(old(self)@.obj, vm_mid, witness));
        match advanced {
            Ok(PyIterReturn::Return(obj)) => {
                let converted = T::try_from_object(vm, obj);
                Some(converted)
            },
            Ok(PyIterReturn::StopIteration(_)) => {
                self.spent = true;
                None
            },
            Err(err) => Some(Err(err)),
        }
    }
}

} // verus!
