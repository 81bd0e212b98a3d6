use std::cell::Cell;
use std::rc::Rc;

use iter_protocol::ExceptionKind;
use iter_protocol::IterNextFunc;
use iter_protocol::IterNextWrapper;
use iter_protocol::PyBaseException;
use iter_protocol::PyIter;
use iter_protocol::PyIterIter;
use iter_protocol::PyIterReturn;
use iter_protocol::PyObjectPayload;
use iter_protocol::PyObjectRef;
use iter_protocol::PyResult;
use iter_protocol::PySequenceIterator;
use iter_protocol::PyTypeRef;
use iter_protocol::PyTypeSlots;
use iter_protocol::SlotFunction;
use iter_protocol::TryFromObject;
use iter_protocol::VirtualMachine;

/// A positional store: indexing gives the item at the position, and fails
/// as out of range past the last. Counts how often it is indexed.
struct Store {
    items: Vec<PyObjectRef>,
    probes: Rc<Cell<usize>>,
}

impl SlotFunction<(PyObjectRef, usize), PyResult> for Store {
    fn call(&self, args: (PyObjectRef, usize)) -> PyResult {
        self.probes.set(self.probes.get() + 1);
        match self.items.get(args.1) {
            Some(item) => Ok(*item),
            None => Err(PyBaseException::new(ExceptionKind::IndexError, Vec::new())),
        }
    }
}

/// A generator body by script: each call gives the next outcome of the
/// script, the end of the sequence being raised, and the last outcome for
/// ever after. Counts how often it is called.
struct Script {
    outcomes: Vec<PyResult>,
    calls: Rc<Cell<usize>>,
}

impl SlotFunction<PyObjectRef, PyResult> for Script {
    fn call(&self, _zelf: PyObjectRef) -> PyResult {
        let n = self.calls.get();
        self.calls.set(n + 1);
        let at = if n < self.outcomes.len() { n } else { self.outcomes.len() - 1 };
        self.outcomes[at].clone()
    }
}

fn generator(outcomes: Vec<PyResult>, calls: &Rc<Cell<usize>>) -> IterNextFunc {
    Box::new(IterNextWrapper { body: Script { outcomes, calls: calls.clone() } })
}

/// An iterator hook that always returns the same value.
struct Always {
    value: PyObjectRef,
}

impl SlotFunction<PyObjectRef, PyResult> for Always {
    fn call(&self, _zelf: PyObjectRef) -> PyResult {
        Ok(self.value)
    }
}

/// An iterator hook that always fails.
struct Failing;

impl SlotFunction<PyObjectRef, PyResult> for Failing {
    fn call(&self, _zelf: PyObjectRef) -> PyResult {
        Err(PyBaseException::with_message(ExceptionKind::ValueError, "no".to_string()))
    }
}

/// Indexing that fails with the given kind at every position.
struct Broken {
    kind: ExceptionKind,
    args: Vec<PyObjectRef>,
}

impl SlotFunction<(PyObjectRef, usize), PyResult> for Broken {
    fn call(&self, _args: (PyObjectRef, usize)) -> PyResult {
        Err(PyBaseException::new(self.kind, self.args.clone()))
    }
}

/// Indexing that fails once with a runtime failure at position 1, and
/// works otherwise.
struct Flaky {
    items: Vec<PyObjectRef>,
    failed: Cell<bool>,
}

impl SlotFunction<(PyObjectRef, usize), PyResult> for Flaky {
    fn call(&self, args: (PyObjectRef, usize)) -> PyResult {
        if args.1 == 1 && !self.failed.get() {
            self.failed.set(true);
            return Err(PyBaseException::new(ExceptionKind::RuntimeError, Vec::new()));
        }
        match self.items.get(args.1) {
            Some(item) => Ok(*item),
            None => Err(PyBaseException::new(ExceptionKind::IndexError, Vec::new())),
        }
    }
}

/// An estimate of the length that is always the same.
struct Estimate {
    outcome: PyResult<Option<usize>>,
}

impl SlotFunction<PyObjectRef, PyResult<Option<usize>>> for Estimate {
    fn call(&self, _zelf: PyObjectRef) -> PyResult<Option<usize>> {
        self.outcome.clone()
    }
}

fn plain_class(vm: &mut VirtualMachine, name: &str) -> PyTypeRef {
    let object = vm.object_type();
    vm.new_class(name.to_string(), vec![object], PyTypeSlots::new()).unwrap()
}

fn plain_objects(vm: &mut VirtualMachine, n: usize) -> Vec<PyObjectRef> {
    let class = plain_class(vm, "Item");
    (0..n).map(|_| vm.new_object(class).unwrap()).collect()
}

fn store(vm: &mut VirtualMachine, items: &[PyObjectRef]) -> (PyObjectRef, Rc<Cell<usize>>) {
    let probes = Rc::new(Cell::new(0));
    let slots = PyTypeSlots::new()
        .with_getitem(Box::new(Store { items: items.to_vec(), probes: probes.clone() }));
    let object = vm.object_type();
    let class = vm.new_class("Store".to_string(), vec![object], slots).unwrap();
    (vm.new_object(class).unwrap(), probes)
}

fn scripted(vm: &mut VirtualMachine, outcomes: Vec<PyResult>) -> (PyObjectRef, Rc<Cell<usize>>) {
    let calls = Rc::new(Cell::new(0));
    let slots = PyTypeSlots::new()
        .with_self_iter()
        .with_iternext(generator(outcomes, &calls));
    let object = vm.object_type();
    let class = vm.new_class("Generator".to_string(), vec![object], slots).unwrap();
    (vm.new_object(class).unwrap(), calls)
}

fn stop(value: Option<PyObjectRef>) -> PyResult {
    Err(PyBaseException::new_stop_iteration(value))
}

#[test]
fn iterator_is_its_own_iterator() {
    let mut vm = VirtualMachine::new();
    let items = plain_objects(&mut vm, 1);
    let (gen, calls) = scripted(&mut vm, vec![Ok(items[0]), stop(None)]);
    assert!(PyIter::check(&gen, &vm));
    let it = gen.get_iter(&mut vm).unwrap();
    assert_eq!(*it.as_object(), gen);
    assert_eq!(it.into_object(), gen);
    assert_eq!(calls.get(), 0);
}

#[test]
fn iterator_without_a_hook_is_not_iterable() {
    let mut vm = VirtualMachine::new();
    let calls = Rc::new(Cell::new(0));
    let slots = PyTypeSlots::new()
        .with_iternext(generator(vec![stop(None)], &calls));
    let object = vm.object_type();
    let class = vm.new_class("Bare".to_string(), vec![object], slots).unwrap();
    let bare = vm.new_object(class).unwrap();
    assert!(PyIter::check(&bare, &vm));
    let err = bare.get_iter(&mut vm).unwrap_err();
    assert_eq!(err.kind(), ExceptionKind::TypeError);
    assert_eq!(err.message(), "'Bare' object is not iterable");
}

#[test]
fn positional_store_drains_in_index_order() {
    let mut vm = VirtualMachine::new();
    let items = plain_objects(&mut vm, 3);
    let (target, probes) = store(&mut vm, &items);
    assert!(!PyIter::check(&target, &vm));
    let it = target.get_iter(&mut vm).unwrap();
    assert!(PyIter::check(it.as_object(), &vm));
    assert_eq!(probes.get(), 0);
    assert_eq!(it.next(&mut vm), Ok(PyIterReturn::Return(items[0])));
    assert_eq!(it.next(&mut vm), Ok(PyIterReturn::Return(items[1])));
    assert_eq!(it.next(&mut vm), Ok(PyIterReturn::Return(items[2])));
    assert_eq!(probes.get(), 3);
    assert_eq!(it.next(&mut vm), Ok(PyIterReturn::StopIteration(None)));
    assert_eq!(probes.get(), 4);
    assert_eq!(it.next(&mut vm), Ok(PyIterReturn::StopIteration(None)));
    assert_eq!(it.next(&mut vm), Ok(PyIterReturn::StopIteration(None)));
    assert_eq!(probes.get(), 4);
}

#[test]
fn empty_positional_store_ends_at_once() {
    let mut vm = VirtualMachine::new();
    let (target, probes) = store(&mut vm, &[]);
    let it = target.get_iter(&mut vm).unwrap();
    assert_eq!(it.next(&mut vm), Ok(PyIterReturn::StopIteration(None)));
    assert_eq!(it.next(&mut vm), Ok(PyIterReturn::StopIteration(None)));
    assert_eq!(probes.get(), 1);
}

#[test]
fn sequence_iterator_state_follows_the_pulls() {
    let mut vm = VirtualMachine::new();
    let items = plain_objects(&mut vm, 1);
    let (target, _) = store(&mut vm, &items);
    let it = target.get_iter(&mut vm).unwrap();
    let handle = *it.as_object();
    assert_eq!(vm.class_of(&handle), vm.iterator_type());
    assert_eq!(vm.class_name(&handle), "iterator");
    assert_eq!(
        vm.payload_of(&handle),
        PyObjectPayload::SequenceIterator(PySequenceIterator::Active { target, position: 0 })
    );
    it.next(&mut vm).unwrap();
    assert_eq!(
        vm.payload_of(&handle),
        PyObjectPayload::SequenceIterator(PySequenceIterator::Active { target, position: 1 })
    );
    it.next(&mut vm).unwrap();
    assert_eq!(
        vm.payload_of(&handle),
        PyObjectPayload::SequenceIterator(PySequenceIterator::Exhausted)
    );
}

#[test]
fn two_iterators_over_one_store_are_independent() {
    let mut vm = VirtualMachine::new();
    let items = plain_objects(&mut vm, 2);
    let (target, _) = store(&mut vm, &items);
    let first = target.get_iter(&mut vm).unwrap();
    let second = target.get_iter(&mut vm).unwrap();
    assert_ne!(first.as_object(), second.as_object());
    assert_eq!(first.next(&mut vm), Ok(PyIterReturn::Return(items[0])));
    assert_eq!(first.next(&mut vm), Ok(PyIterReturn::Return(items[1])));
    assert_eq!(second.next(&mut vm), Ok(PyIterReturn::Return(items[0])));
}

#[test]
fn two_handles_on_one_iterator_share_its_position() {
    let mut vm = VirtualMachine::new();
    let items = plain_objects(&mut vm, 2);
    let (target, _) = store(&mut vm, &items);
    let first = target.get_iter(&mut vm).unwrap();
    let second = PyIter::new(*first.as_object());
    assert_eq!(first.next(&mut vm), Ok(PyIterReturn::Return(items[0])));
    assert_eq!(second.next(&mut vm), Ok(PyIterReturn::Return(items[1])));
    assert_eq!(first.next(&mut vm), Ok(PyIterReturn::StopIteration(None)));
}

#[test]
fn sequence_iterator_is_its_own_iterator() {
    let mut vm = VirtualMachine::new();
    let items = plain_objects(&mut vm, 2);
    let (target, _) = store(&mut vm, &items);
    let it = target.get_iter(&mut vm).unwrap();
    assert_eq!(it.next(&mut vm), Ok(PyIterReturn::Return(items[0])));
    let again = it.as_object().get_iter(&mut vm).unwrap();
    assert_eq!(again, it);
    assert_eq!(again.next(&mut vm), Ok(PyIterReturn::Return(items[1])));
}

#[test]
fn indexing_that_raises_the_end_signal_ends_with_its_payload() {
    let mut vm = VirtualMachine::new();
    let payload = plain_objects(&mut vm, 1)[0];
    let slots = PyTypeSlots::new().with_getitem(Box::new(Broken {
        kind: ExceptionKind::StopIteration,
        args: vec![payload],
    }));
    let class = vm.new_class("Ending".to_string(), Vec::new(), slots).unwrap();
    let target = vm.new_object(class).unwrap();
    let it = target.get_iter(&mut vm).unwrap();
    assert_eq!(it.next(&mut vm), Ok(PyIterReturn::StopIteration(Some(payload))));
    assert_eq!(it.next(&mut vm), Ok(PyIterReturn::StopIteration(None)));
}

#[test]
fn other_failure_of_indexing_passes_through_and_keeps_the_position() {
    let mut vm = VirtualMachine::new();
    let items = plain_objects(&mut vm, 2);
    let slots = PyTypeSlots::new()
        .with_getitem(Box::new(Flaky { items: items.clone(), failed: Cell::new(false) }));
    let class = vm.new_class("Flaky".to_string(), Vec::new(), slots).unwrap();
    let target = vm.new_object(class).unwrap();
    let it = target.get_iter(&mut vm).unwrap();
    assert_eq!(it.next(&mut vm), Ok(PyIterReturn::Return(items[0])));
    assert_eq!(
        it.next(&mut vm),
        Err(PyBaseException::new(ExceptionKind::RuntimeError, Vec::new()))
    );
    assert_eq!(it.next(&mut vm), Ok(PyIterReturn::Return(items[1])));
    assert_eq!(it.next(&mut vm), Ok(PyIterReturn::StopIteration(None)));
}

#[test]
fn value_with_neither_capability_is_not_iterable() {
    let mut vm = VirtualMachine::new();
    let class = plain_class(&mut vm, "Plain");
    let plain = vm.new_object(class).unwrap();
    assert!(!PyIter::check(&plain, &vm));
    let err = plain.get_iter(&mut vm).unwrap_err();
    assert_eq!(err.kind(), ExceptionKind::TypeError);
    assert_eq!(err.message(), "'Plain' object is not iterable");
    assert!(err.args().is_empty());
    assert_eq!(err, PyBaseException::not_iterable("Plain"));
}

#[test]
fn hook_that_returns_a_non_iterator_is_a_bad_protocol() {
    let mut vm = VirtualMachine::new();
    let class = plain_class(&mut vm, "Plain");
    let plain = vm.new_object(class).unwrap();
    let slots = PyTypeSlots::new().with_iter(Box::new(Always { value: plain }));
    let class = vm.new_class("Misbehaving".to_string(), Vec::new(), slots).unwrap();
    let target = vm.new_object(class).unwrap();
    let err = target.get_iter(&mut vm).unwrap_err();
    assert_eq!(err.kind(), ExceptionKind::TypeError);
    assert_eq!(err.message(), "iterator protocol returned a non-iterator of type Misbehaving");
    assert_eq!(err, PyBaseException::bad_iterator_protocol("Misbehaving"));
}

#[test]
fn inherited_bad_hook_names_the_type_of_the_value() {
    let mut vm = VirtualMachine::new();
    let class = plain_class(&mut vm, "Plain");
    let plain = vm.new_object(class).unwrap();
    let slots = PyTypeSlots::new().with_iter(Box::new(Always { value: plain }));
    let base = vm.new_class("Misbehaving".to_string(), Vec::new(), slots).unwrap();
    let child = vm.new_class("Child".to_string(), vec![base], PyTypeSlots::new()).unwrap();
    let target = vm.new_object(child).unwrap();
    assert_eq!(target.get_iter(&mut vm), Err(PyBaseException::bad_iterator_protocol("Child")));
}

#[test]
fn own_iterator_that_cannot_be_advanced_is_a_bad_protocol() {
    let mut vm = VirtualMachine::new();
    let slots = PyTypeSlots::new().with_self_iter();
    let class = vm.new_class("Inert".to_string(), Vec::new(), slots).unwrap();
    let target = vm.new_object(class).unwrap();
    assert!(!PyIter::check(&target, &vm));
    assert_eq!(target.get_iter(&mut vm), Err(PyBaseException::bad_iterator_protocol("Inert")));
}

#[test]
fn hook_comes_before_indexing() {
    let mut vm = VirtualMachine::new();
    let items = plain_objects(&mut vm, 1);
    let (gen, _) = scripted(&mut vm, vec![Ok(items[0]), stop(None)]);
    let probes = Rc::new(Cell::new(0));
    let slots = PyTypeSlots::new()
        .with_iter(Box::new(Always { value: gen }))
        .with_getitem(Box::new(Store { items: Vec::new(), probes: probes.clone() }));
    let class = vm.new_class("Both".to_string(), Vec::new(), slots).unwrap();
    let target = vm.new_object(class).unwrap();
    let it = target.get_iter(&mut vm).unwrap();
    assert_eq!(*it.as_object(), gen);
    assert_eq!(it.next(&mut vm), Ok(PyIterReturn::Return(items[0])));
    assert_eq!(probes.get(), 0);
}

#[test]
fn bad_hook_does_not_fall_back_to_indexing() {
    let mut vm = VirtualMachine::new();
    let class = plain_class(&mut vm, "Plain");
    let plain = vm.new_object(class).unwrap();
    let probes = Rc::new(Cell::new(0));
    let slots = PyTypeSlots::new()
        .with_iter(Box::new(Always { value: plain }))
        .with_getitem(Box::new(Store { items: Vec::new(), probes: probes.clone() }));
    let class = vm.new_class("Both".to_string(), Vec::new(), slots).unwrap();
    let target = vm.new_object(class).unwrap();
    assert_eq!(target.get_iter(&mut vm), Err(PyBaseException::bad_iterator_protocol("Both")));
    assert_eq!(probes.get(), 0);
}

#[test]
fn failure_of_the_hook_passes_through() {
    let mut vm = VirtualMachine::new();
    let slots = PyTypeSlots::new().with_iter(Box::new(Failing));
    let class = vm.new_class("Failing".to_string(), Vec::new(), slots).unwrap();
    let target = vm.new_object(class).unwrap();
    assert_eq!(
        target.get_iter(&mut vm),
        Err(PyBaseException::with_message(ExceptionKind::ValueError, "no".to_string()))
    );
}

#[test]
fn try_from_candidate_checks_what_a_hook_returned() {
    let mut vm = VirtualMachine::new();
    let class = plain_class(&mut vm, "Plain");
    let plain = vm.new_object(class).unwrap();
    let class = plain_class(&mut vm, "Asked");
    let asked = vm.new_object(class).unwrap();
    let (gen, _) = scripted(&mut vm, vec![stop(None)]);
    assert_eq!(PyIter::try_from_candidate(&asked, Ok(gen), &vm), Ok(PyIter::new(gen)));
    assert_eq!(
        PyIter::try_from_candidate(&asked, Ok(plain), &vm),
        Err(PyBaseException::bad_iterator_protocol("Asked"))
    );
    let failure = PyBaseException::new(ExceptionKind::KeyError, vec![plain]);
    assert_eq!(PyIter::try_from_candidate(&asked, Err(failure.clone()), &vm), Err(failure));
}

#[test]
fn generator_ends_with_its_payload() {
    let mut vm = VirtualMachine::new();
    let values = plain_objects(&mut vm, 3);
    let (x, y, forty_two) = (values[0], values[1], values[2]);
    let (gen, calls) = scripted(&mut vm, vec![Ok(x), Ok(y), stop(Some(forty_two))]);
    let it = gen.get_iter(&mut vm).unwrap();
    assert_eq!(it.next(&mut vm), Ok(PyIterReturn::Return(x)));
    assert_eq!(it.next(&mut vm), Ok(PyIterReturn::Return(y)));
    assert_eq!(it.next(&mut vm), Ok(PyIterReturn::StopIteration(Some(forty_two))));
    assert_eq!(calls.get(), 3);
}

#[test]
fn failure_of_advancing_passes_through() {
    let mut vm = VirtualMachine::new();
    let failure = PyBaseException::with_message(ExceptionKind::RuntimeError, "boom".to_string());
    let (gen, _) = scripted(&mut vm, vec![Err(failure.clone())]);
    let it = PyIter::new(gen);
    assert_eq!(it.next(&mut vm), Err(failure));
}

#[test]
fn advancing_a_non_iterator_names_its_type() {
    let mut vm = VirtualMachine::new();
    let class = plain_class(&mut vm, "Plain");
    let plain = vm.new_object(class).unwrap();
    let it = PyIter::new(plain);
    let err = it.next(&mut vm).unwrap_err();
    assert_eq!(err.kind(), ExceptionKind::TypeError);
    assert_eq!(err.message(), "'Plain' object is not an iterator");
    assert_eq!(err, PyBaseException::not_an_iterator("Plain"));
}

#[test]
fn unknown_handle_is_a_bare_object() {
    let mut vm = VirtualMachine::new();
    let mut other = VirtualMachine::new();
    let class = plain_class(&mut other, "Elsewhere");
    let stranger = other.new_object(class).unwrap();
    assert_eq!(vm.class_of(&stranger), vm.object_type());
    assert!(!PyIter::check(&stranger, &vm));
    assert_eq!(stranger.get_iter(&mut vm), Err(PyBaseException::not_iterable("object")));
    assert_eq!(
        PyIter::new(stranger).next(&mut vm),
        Err(PyBaseException::not_an_iterator("object"))
    );
}

#[test]
fn spent_sequence_does_not_advance_again() {
    let mut vm = VirtualMachine::new();
    let values = plain_objects(&mut vm, 2);
    let (gen, calls) = scripted(&mut vm, vec![Ok(values[0]), stop(Some(values[1])), Ok(values[0])]);
    let it = gen.get_iter(&mut vm).unwrap();
    let mut seq: PyIterIter<PyObjectRef> = it.iter(&vm).unwrap();
    assert_eq!(seq.next(&mut vm), Some(Ok(values[0])));
    assert_eq!(calls.get(), 1);
    assert_eq!(seq.next(&mut vm), None);
    assert_eq!(calls.get(), 2);
    assert_eq!(seq.next(&mut vm), None);
    assert_eq!(seq.next(&mut vm), None);
    assert_eq!(calls.get(), 2);
}

#[test]
fn sequence_over_a_store_gives_its_items() {
    let mut vm = VirtualMachine::new();
    let items = plain_objects(&mut vm, 3);
    let (target, probes) = store(&mut vm, &items);
    let it = target.get_iter(&mut vm).unwrap();
    let mut seq: PyIterIter<PyObjectRef> = it.iter(&vm).unwrap();
    let mut got = Vec::new();
    while let Some(item) = seq.next(&mut vm) {
        got.push(item.unwrap());
    }
    assert_eq!(got, items);
    assert_eq!(seq.next(&mut vm), None);
    assert_eq!(probes.get(), 4);
}

#[test]
fn failure_does_not_spend_the_sequence() {
    let mut vm = VirtualMachine::new();
    let values = plain_objects(&mut vm, 1);
    let failure = PyBaseException::new(ExceptionKind::RuntimeError, Vec::new());
    let (gen, calls) = scripted(&mut vm, vec![Err(failure.clone()), Ok(values[0]), stop(None)]);
    let mut seq: PyIterIter<PyObjectRef> = PyIterIter::new(PyIter::new(gen), None);
    assert_eq!(seq.next(&mut vm), Some(Err(failure)));
    assert_eq!(seq.next(&mut vm), Some(Ok(values[0])));
    assert_eq!(seq.next(&mut vm), None);
    assert_eq!(calls.get(), 3);
}

#[test]
fn sequence_converts_its_elements() {
    let mut vm = VirtualMachine::new();
    let items = plain_objects(&mut vm, 1);
    let (inner, _) = store(&mut vm, &items);
    let class = plain_class(&mut vm, "Plain");
    let plain = vm.new_object(class).unwrap();
    let (outer, _) = scripted(&mut vm, vec![Ok(inner), Ok(plain), stop(None)]);
    let mut seq: PyIterIter<PyIter> = PyIterIter::new(PyIter::new(outer), None);
    let first = seq.next(&mut vm).unwrap().unwrap();
    assert_eq!(first.next(&mut vm), Ok(PyIterReturn::Return(items[0])));
    assert_eq!(seq.next(&mut vm), Some(Err(PyBaseException::not_iterable("Plain"))));
    assert_eq!(seq.next(&mut vm), None);
}

#[test]
fn try_from_object_of_a_value_is_the_value() {
    let mut vm = VirtualMachine::new();
    let value = plain_objects(&mut vm, 1)[0];
    assert_eq!(<PyObjectRef as TryFromObject>::try_from_object(&mut vm, value), Ok(value));
}

#[test]
fn try_from_object_of_an_iterator_negotiates() {
    let mut vm = VirtualMachine::new();
    let items = plain_objects(&mut vm, 1);
    let (target, _) = store(&mut vm, &items);
    let it = <PyIter as TryFromObject>::try_from_object(&mut vm, target).unwrap();
    assert_eq!(it.next(&mut vm), Ok(PyIterReturn::Return(items[0])));
}

#[test]
fn size_hint_without_an_estimate() {
    let mut vm = VirtualMachine::new();
    let (gen, _) = scripted(&mut vm, vec![stop(None)]);
    let seq: PyIterIter<PyObjectRef> = PyIter::new(gen).iter(&vm).unwrap();
    assert_eq!(seq.size_hint(), (0, None));
}

#[test]
fn size_hint_with_an_estimate() {
    let mut vm = VirtualMachine::new();
    let calls = Rc::new(Cell::new(0));
    let slots = PyTypeSlots::new()
        .with_self_iter()
        .with_iternext(generator(vec![stop(None)], &calls))
        .with_length_hint(Box::new(Estimate { outcome: Ok(Some(7)) }));
    let class = vm.new_class("Sized".to_string(), Vec::new(), slots).unwrap();
    let gen = vm.new_object(class).unwrap();
    let mut seq: PyIterIter<PyObjectRef> = PyIter::new(gen).iter(&vm).unwrap();
    assert_eq!(seq.size_hint(), (7, Some(7)));
    assert_eq!(seq.next(&mut vm), None);
    assert_eq!(seq.size_hint(), (7, Some(7)));
    let made: PyIterIter<PyObjectRef> = PyIterIter::new(PyIter::new(gen), Some(3));
    assert_eq!(made.size_hint(), (3, Some(3)));
}

#[test]
fn failing_estimate_fails_the_sequence() {
    let mut vm = VirtualMachine::new();
    let failure = PyBaseException::new(ExceptionKind::ValueError, Vec::new());
    let slots = PyTypeSlots::new()
        .with_self_iter()
        .with_length_hint(Box::new(Estimate { outcome: Err(failure.clone()) }));
    let class = vm.new_class("Unsized".to_string(), Vec::new(), slots).unwrap();
    let gen = vm.new_object(class).unwrap();
    let made: PyResult<PyIterIter<PyObjectRef>> = PyIter::new(gen).iter(&vm);
    assert_eq!(made.err(), Some(failure));
    assert_eq!(vm.length_hint(gen).unwrap_err().kind(), ExceptionKind::ValueError);
}
