//! What holds of the protocol as a whole, proved from the contracts of its
//! parts.

use vstd::prelude::*;

use crate::exceptions::ExceptionKind;
use crate::exceptions::ExceptionView;
use crate::exceptions::PyBaseException;
use crate::exceptions::PyResult;
use crate::iter_return::PyIterReturn;
use crate::object::PyObjectRef;
use crate::protocol::PyIter;
use crate::protocol::PyIterIterView;
use crate::protocol::TryFromObject;
use crate::slots::Capability;
use crate::slots::IterNextSlot;
use crate::slots::IterSlot;
use crate::types::PyObject;
use crate::types::PyObjectPayload;
use crate::types::PySequenceIterator;
use crate::types::first_supplier;
use crate::types::iterator_type;
use crate::types::linearization;
use crate::types::resolution;
use crate::vm::VmView;
use crate::vm::lemma_resolution_in_table;

verus! {

/// Whether the iterator hook `hook` can only hand the value `v` back.
pub open spec fn hands_back(hook: IterSlot, v: PyObjectRef) -> bool {
    match hook {
        IterSlot::SelfIter => true,
        IterSlot::Native(f) => forall|outcome: PyResult| #[trigger]
            f.rel(v, outcome) ==> outcome == Ok::<PyObjectRef, PyBaseException>(v),
    }
}

/// Iterating an iterator yields the iterator itself: where a value can be
/// advanced and the iterator hook of its type hands the value back, making
/// an iterator from it gives a handle to that very value and changes
/// nothing.
pub proof fn lemma_iterator_is_its_own_iterator(
    vm: VmView,
    v: PyObjectRef,
    post: VmView,
    r: PyResult<PyIter>,
)
    requires
        vm.wf(),
        vm.is_iterator(v),
        vm.iter_slot(v) matches Some(hook) && hands_back(hook, v),
        vm.negotiation(v, post, r),
    ensures
        r matches Ok(it) && it@ == v,
        post == vm,
{
}

/// The machine's own sequence iterators can be advanced, and their iterator
/// hook hands them back, so each is its own iterator.
pub proof fn lemma_sequence_iterator_is_its_own_iterator(
    vm: VmView,
    it: PyObjectRef,
    post: VmView,
    r: PyResult<PyIter>,
)
    requires
        vm.wf(),
        vm.class_of(it) == iterator_type(),
        vm.negotiation(it, post, r),
    ensures
        vm.is_iterator(it),
        r matches Ok(handle) && handle@ == it,
        post == vm,
{
    lemma_iterator_type_resolves(vm);
    lemma_iterator_is_its_own_iterator(vm, it, post, r);
}

/// The iterator type itself supplies both the iterator hook and the way to
/// advance, so for its values nothing further up is asked.
pub proof fn lemma_iterator_type_resolves(vm: VmView)
    requires
        vm.wf(),
    ensures
        resolution(vm.types, iterator_type(), Capability::Advance) == Some(iterator_type()),
        resolution(vm.types, iterator_type(), Capability::GetIterator) == Some(iterator_type()),
{
    let order = linearization(vm.types, iterator_type());
    assert(order[0] == iterator_type());
    assert(first_supplier(vm.types, order, Capability::Advance) == Some(iterator_type()));
    assert(first_supplier(vm.types, order, Capability::GetIterator) == Some(iterator_type()));
}

/// A value that has neither an iterator hook nor a way to be indexed is not
/// iterable: making an iterator from it fails, names its type, and changes
/// nothing.
pub proof fn lemma_neither_capability_is_not_iterable(
    vm: VmView,
    v: PyObjectRef,
    post: VmView,
    r: PyResult<PyIter>,
)
    requires
        vm.wf(),
        vm.resolve(v, Capability::GetIterator) is None,
        vm.resolve(v, Capability::GetItem) is None,
        vm.negotiation(v, post, r),
    ensures
        r matches Err(err) && err@ == ExceptionView::not_iterable(vm.class_name(v)),
        post == vm,
{
}

/// Whether the value behind `target` is a positional store of `items` and
/// nothing else: its type has no iterator hook, indexing it below the number
/// of items gives the item at that position, and indexing it at that number
/// fails as out of range.
pub open spec fn positional_store(vm: VmView, target: PyObjectRef, items: Seq<PyObjectRef>) -> bool {
    &&& vm.resolve(target, Capability::GetIterator) is None
    &&& vm.getitem_slot(target) matches Some(f)
    &&& forall|i: int, outcome: PyResult|
        0 <= i < items.len() && #[trigger] f.rel((target, i as usize), outcome) ==> outcome == Ok::<
            PyObjectRef,
            PyBaseException,
        >(items[i])
    &&& forall|outcome: PyResult| #[trigger]
        f.rel((target, items.len() as usize), outcome) ==> (outcome matches Err(err) && err@.kind
            == ExceptionKind::IndexError)
}

/// The state of a sequence iterator over `n` items after `k` pulls: at
/// position `k` until the probe at `n` has failed, and ended after that.
pub open spec fn state_after(target: PyObjectRef, n: nat, k: nat) -> PySequenceIterator {
    if k <= n {
        PySequenceIterator::Active { target, position: k as usize }
    } else {
        PySequenceIterator::Exhausted
    }
}

/// The machine `base` with one more object: a sequence iterator in `state`.
pub open spec fn with_sequence_iterator(base: VmView, state: PySequenceIterator) -> VmView {
    base.with_object(
        PyObject { class: iterator_type(), payload: PyObjectPayload::SequenceIterator(state) },
    )
}

/// What pull number `k`, counted from zero, gives over `items`: the item at
/// `k`, and past the items the end of the sequence with no final value.
pub open spec fn drained(items: Seq<PyObjectRef>, k: int) -> PyResult<PyIterReturn> {
    if k < items.len() {
        Ok(PyIterReturn::Return(items[k]))
    } else {
        Ok(PyIterReturn::StopIteration(None))
    }
}

/// Whether pull number `k` of a record of pulls on `it` is a pull that the
/// machine before it may have made, and left the machine after it.
pub open spec fn recorded_pull(
    machines: Seq<VmView>,
    results: Seq<PyResult<PyIterReturn>>,
    it: PyObjectRef,
    k: int,
) -> bool {
    machines[k].advance(it, machines[k + 1], results[k])
}

/// Whether pull number `k` of a record of pulls left the machine as it was.
pub open spec fn left_untouched(machines: Seq<VmView>, k: int) -> bool {
    machines[k + 1] == machines[k]
}

/// One pull on a sequence iterator over a positional store, after `k`
/// earlier pulls, gives what [`drained`] says and leaves the iterator in the
/// state after `k + 1` pulls. Once the iterator has ended, the pull leaves
/// the machine as it was.
pub proof fn lemma_sequence_iterator_pull(
    base: VmView,
    target: PyObjectRef,
    items: Seq<PyObjectRef>,
    k: nat,
    post: VmView,
    r: PyResult<PyIterReturn>,
)
    requires
        base.wf(),
        positional_store(base, target, items),
        items.len() <= usize::MAX,
        with_sequence_iterator(base, state_after(target, items.len(), k)).advance(
            PyObjectRef { id: base.objects.len() as usize },
            post,
            r,
        ),
    ensures
        r == drained(items, k as int),
        post == with_sequence_iterator(base, state_after(target, items.len(), k + 1)),
        k > items.len() ==> post == with_sequence_iterator(
            base,
            state_after(target, items.len(), k),
        ),
{
    let n = items.len();
    let state = state_after(target, n, k);
    let vm = with_sequence_iterator(base, state);
    let it = PyObjectRef { id: base.objects.len() as usize };
    lemma_iterator_type_resolves(base);
    assert(vm.class_of(it) == iterator_type());
    assert(vm.iternext_slot(it) matches Some(IterNextSlot::SequenceIterator));
    assert(vm.sequence_advance(it, post, r));
    assert(vm.payload_of(it) == PyObjectPayload::SequenceIterator(state));
    lemma_resolution_in_table(base, base.class_of(target), Capability::GetItem);
    assert(target.id < base.objects.len());
    assert(vm.class_of(target) == base.class_of(target));
    assert(vm.getitem_slot(target) == base.getitem_slot(target));
    if k <= n {
        let f = base.getitem_slot(target)->0;
        let outcome = choose|outcome: PyResult|
            {
                &&& #[trigger] f.rel((target, k as usize), outcome)
                &&& r == PyIterReturn::indexing_outcome(outcome)
            };
        if k < n {
            assert(outcome == Ok::<PyObjectRef, PyBaseException>(items[k as int]));
        }
        assert(r == drained(items, k as int));
        assert(state.after(r) == state_after(target, n, k + 1));
        let next = with_sequence_iterator(base, state_after(target, n, k + 1));
        assert(post.types == next.types);
        assert(post.objects =~= next.objects);
    } else {
        assert(state == PySequenceIterator::Exhausted);
        assert(post == vm);
    }
}

/// Draining a positional store through the fallback gives its items in
/// index order and then the end.
///
/// Let a value be a positional store of `n` items, and let `machines` and
/// `results` record any number of pulls on the iterator that was made from
/// it, each machine being the one that the pull before it left. Then the
/// first `n` pulls give the `n` items in index order, and every later pull
/// gives the end of the sequence with no final value. From the second such
/// pull on the machine does not change any more: the store is probed once
/// past its end, and never again.
pub proof fn lemma_sequence_iterator_drains_in_order(
    start: VmView,
    target: PyObjectRef,
    items: Seq<PyObjectRef>,
    got: PyResult<PyIter>,
    machines: Seq<VmView>,
    results: Seq<PyResult<PyIterReturn>>,
)
    requires
        start.wf(),
        positional_store(start, target, items),
        items.len() <= usize::MAX,
        machines.len() == results.len() + 1,
        start.negotiation(target, machines[0], got),
        forall|k: int|
            0 <= k < results.len() ==> #[trigger] recorded_pull(machines, results, got->Ok_0@, k),
    ensures
        got is Ok,
        forall|k: int| 0 <= k < results.len() ==> #[trigger] results[k] == drained(items, k),
        forall|k: int| items.len() < k < results.len() ==> #[trigger] left_untouched(machines, k),
{
    lemma_resolution_in_table(start, start.class_of(target), Capability::GetIterator);
    assert(start.iter_slot(target) is None);
    lemma_drain_prefix(start, target, items, got->Ok_0@, machines, results, results.len() as nat);
}

/// The first `upto` pulls of a drain: the induction behind
/// [`lemma_sequence_iterator_drains_in_order`].
proof fn lemma_drain_prefix(
    base: VmView,
    target: PyObjectRef,
    items: Seq<PyObjectRef>,
    it: PyObjectRef,
    machines: Seq<VmView>,
    results: Seq<PyResult<PyIterReturn>>,
    upto: nat,
)
    requires
        base.wf(),
        positional_store(base, target, items),
        items.len() <= usize::MAX,
        machines.len() == results.len() + 1,
        upto <= results.len(),
        it == (PyObjectRef { id: base.objects.len() as usize }),
        machines[0] == with_sequence_iterator(base, state_after(target, items.len(), 0)),
        forall|k: int| 0 <= k < results.len() ==> #[trigger] recorded_pull(machines, results, it, k),
    ensures
        machines[upto as int] == with_sequence_iterator(
            base,
            state_after(target, items.len(), upto),
        ),
        forall|k: int| 0 <= k < upto ==> #[trigger] results[k] == drained(items, k),
        forall|k: int| items.len() < k < upto ==> #[trigger] left_untouched(machines, k),
    decreases upto,
{
    if upto > 0 {
        let k = (upto - 1) as nat;
        lemma_drain_prefix(base, target, items, it, machines, results, k);
        assert(recorded_pull(machines, results, it, k as int));
        lemma_sequence_iterator_pull(
            base,
            target,
            items,
            k,
            machines[k as int + 1],
            results[k as int],
        );
        if k > items.len() {
            assert(left_untouched(machines, k as int));
        }
    }
}

/// A native sequence does not advance its iterator again once it has seen
/// the end: where a pull gave nothing, the sequence is spent, and the next
/// pull gives nothing, and leaves the sequence and the machine as they
/// were.
pub proof fn lemma_no_advance_after_exhaustion<T: TryFromObject>(
    seq0: PyIterIterView,
    vm0: VmView,
    seq1: PyIterIterView,
    vm1: VmView,
    r1: Option<PyResult<T>>,
    seq2: PyIterIterView,
    vm2: VmView,
    r2: Option<PyResult<T>>,
)
    requires
        seq0.pull::<T>(vm0, seq1, vm1, r1),
        r1 is None,
        seq1.pull::<T>(vm1, seq2, vm2, r2),
    ensures
        seq1.spent,
        r2 is None,
        seq2 == seq1,
        vm2 == vm1,
{
}

} // verus!
