//! The machine: the table of types and the objects that it owns.

use vstd::prelude::*;
use vstd::string::*;

use crate::exceptions::PyResult;
use crate::object::PyObjectRef;
use crate::object::PyTypeRef;
use crate::slots::Capability;
use crate::slots::GetItemFunc;
use crate::slots::IterSlot;
use crate::slots::IterNextSlot;
use crate::slots::LengthHintFunc;
use crate::slots::PyTypeSlots;
use crate::types::PyObject;
use crate::types::PyObjectPayload;
use crate::types::PySequenceIterator;
use crate::types::PyType;
use crate::types::first_supplier;
use crate::types::iterator_type;
use crate::types::lemma_first_supplier_frame;
use crate::types::lemma_first_supplier_is_nearest;
use crate::types::linearization;
use crate::types::object_type;
use crate::types::resolution;
use crate::types::supplies;

verus! {

/// The machine that owns the types and the objects of a running program.
///
/// A type, once defined, never changes, and an object never changes its
/// type. Only a sequence iterator changes what it holds.
pub struct VirtualMachine {
    types: Vec<PyType>,
    objects: Vec<PyObject>,
}

/// What a machine holds, as mathematical values: its types and its objects,
/// each at the place that its handle names.
pub struct VmView {
    pub types: Seq<PyType>,
    pub objects: Seq<PyObject>,
}

impl View for VirtualMachine {
    type V = VmView;

    closed spec fn view(&self) -> VmView {
        VmView { types: self.types@, objects: self.objects@ }
    }
}

impl VmView {
    /// The type of the value behind `obj`. A handle that this machine never
    /// gave out stands for a bare value of the root type.
    pub open spec fn class_of(self, obj: PyObjectRef) -> PyTypeRef {
        if obj.id < self.objects.len() {
            self.objects[obj.id as int].class
        } else {
            object_type()
        }
    }

    /// The name of the type of the value behind `obj`.
    pub open spec fn class_name(self, obj: PyObjectRef) -> Seq<char> {
        self.types[self.class_of(obj).id as int].name@
    }

    /// What the value behind `obj` holds.
    pub open spec fn payload_of(self, obj: PyObjectRef) -> PyObjectPayload {
        if obj.id < self.objects.len() {
            self.objects[obj.id as int].payload
        } else {
            PyObjectPayload::Instance
        }
    }

    /// The nearest type, from the type of `obj` upwards, that supplies
    /// `capability`.
    pub open spec fn resolve(self, obj: PyObjectRef, capability: Capability) -> Option<PyTypeRef> {
        resolution(self.types, self.class_of(obj), capability)
    }

    /// The function that makes an iterator from `obj`, if its type or an
    /// ancestor supplies one.
    pub open spec fn iter_slot(self, obj: PyObjectRef) -> Option<IterSlot> {
        match self.resolve(obj, Capability::GetIterator) {
            Some(owner) => self.types[owner.id as int].slots.iter,
            None => None,
        }
    }

    /// The way in which `obj` is advanced, if its type or an ancestor
    /// supplies one.
    pub open spec fn iternext_slot(self, obj: PyObjectRef) -> Option<IterNextSlot> {
        match self.resolve(obj, Capability::Advance) {
            Some(owner) => self.types[owner.id as int].slots.iternext,
            None => None,
        }
    }

    /// The function that indexes `obj`, if its type or an ancestor supplies
    /// one.
    pub open spec fn getitem_slot(self, obj: PyObjectRef) -> Option<GetItemFunc> {
        match self.resolve(obj, Capability::GetItem) {
            Some(owner) => self.types[owner.id as int].slots.getitem,
            None => None,
        }
    }

    /// The function that estimates what `obj` has left, if its type or an
    /// ancestor supplies one.
    pub open spec fn length_hint_slot(self, obj: PyObjectRef) -> Option<LengthHintFunc> {
        match self.resolve(obj, Capability::LengthHint) {
            Some(owner) => self.types[owner.id as int].slots.length_hint,
            None => None,
        }
    }

    /// Whether the type at place `t` is one that a machine may hold: its
    /// ancestors were defined before it, and only the machine's own
    /// iterator type, which has no descendants, advances by indexing.
    pub open spec fn type_wf(self, t: int) -> bool {
        &&& forall|k: int|
            0 <= k < self.types[t].mro@.len() ==> (#[trigger] self.types[t].mro@[k]).id < t
        &&& t >= 2 ==> !self.types[t].slots.advances_by_indexing()
        &&& t >= 2 ==> forall|k: int|
            0 <= k < self.types[t].mro@.len() ==> #[trigger] self.types[t].mro@[k]
                != iterator_type()
    }

    /// Whether the object at place `o` is one that a machine may hold: its
    /// type is defined, it holds the state of a sequence iterator exactly
    /// when that is its type, and what a sequence iterator indexes can be
    /// indexed.
    pub open spec fn object_wf(self, o: int) -> bool {
        let object = self.objects[o];
        &&& object.class.id < self.types.len()
        &&& object.class == iterator_type() <==> object.payload is SequenceIterator
        &&& object.payload matches PyObjectPayload::SequenceIterator(
            PySequenceIterator::Active { target, .. },
        ) ==> self.resolve(target, Capability::GetItem) is Some
    }

    /// Whether the two types that every machine starts with are in place.
    pub open spec fn builtins_wf(self) -> bool {
        &&& self.types.len() >= 2
        &&& self.types[0].name@ == "object"@
        &&& self.types[0].mro@.len() == 0
        &&& forall|capability: Capability| !(#[trigger] self.types[0].slots.supplies(capability))
        &&& self.types[1].name@ == "iterator"@
        &&& self.types[1].mro@ == seq![object_type()]
        &&& self.types[1].slots.iter matches Some(IterSlot::SelfIter)
        &&& self.types[1].slots.advances_by_indexing()
        &&& self.types[1].slots.getitem is None
        &&& self.types[1].slots.length_hint is None
    }

    /// The invariant of a machine.
    pub open spec fn wf(self) -> bool {
        &&& self.builtins_wf()
        &&& self.types.len() <= usize::MAX
        &&& self.objects.len() <= usize::MAX
        &&& forall|t: int| 0 <= t < self.types.len() ==> #[trigger] self.type_wf(t)
        &&& forall|o: int| 0 <= o < self.objects.len() ==> #[trigger] self.object_wf(o)
    }

    /// The machine with the object behind `obj` holding `payload`.
    pub open spec fn with_payload(self, obj: PyObjectRef, payload: PyObjectPayload) -> VmView {
        VmView {
            types: self.types,
            objects: self.objects.update(
                obj.id as int,
                PyObject { class: self.objects[obj.id as int].class, payload },
            ),
        }
    }

    /// The machine with one more object.
    pub open spec fn with_object(self, object: PyObject) -> VmView {
        VmView { types: self.types, objects: self.objects.push(object) }
    }

    /// The machine with one more type.
    pub open spec fn with_type(self, ty: PyType) -> VmView {
        VmView { types: self.types.push(ty), objects: self.objects }
    }

    /// Whether a type with these ancestors and slots may be defined now:
    /// each ancestor is a type of the machine other than its iterator type,
    /// and the slots do not advance by indexing.
    pub open spec fn admits(self, mro: Seq<PyTypeRef>, slots: PyTypeSlots) -> bool {
        &&& !slots.advances_by_indexing()
        &&& forall|k: int|
            0 <= k < mro.len() ==> (#[trigger] mro[k]).id < self.types.len() && mro[k]
                != iterator_type()
    }
}

/// In a machine, every type that an order of ancestors names is a type of
/// the machine.
pub proof fn lemma_resolution_in_table(vm: VmView, t: PyTypeRef, capability: Capability)
    requires
        vm.wf(),
    ensures
        resolution(vm.types, t, capability) matches Some(owner) ==> {
            &&& owner.id < vm.types.len()
            &&& vm.types[owner.id as int].slots.supplies(capability)
            &&& owner.id <= t.id
            &&& t != iterator_type() && t.id < vm.types.len() ==> owner != iterator_type()
        },
{
    if t.id < vm.types.len() {
        let order = linearization(vm.types, t);
        lemma_first_supplier_is_nearest(vm.types, order, capability);
        if let Some(owner) = first_supplier(vm.types, order, capability) {
            let j = choose|j: int|
                0 <= j < order.len() && #[trigger] order[j] == owner && supplies(
                    vm.types,
                    owner,
                    capability,
                );
            assert(vm.type_wf(t.id as int));
            if j > 0 {
                assert(order[j] == vm.types[t.id as int].mro@[j - 1]);
            }
        }
    }
}

/// Defining one more type changes nothing for the types that were there.
pub proof fn lemma_resolution_after_new_type(
    vm: VmView,
    ty: PyType,
    t: PyTypeRef,
    capability: Capability,
)
    requires
        vm.wf(),
        t.id < vm.types.len(),
    ensures
        resolution(vm.with_type(ty).types, t, capability) == resolution(vm.types, t, capability),
{
    let after = vm.with_type(ty).types;
    let order = linearization(vm.types, t);
    assert(linearization(after, t) == order);
    assert(vm.type_wf(t.id as int));
    assert forall|i: int| 0 <= i < order.len() implies supplies(
        vm.types,
        #[trigger] order[i],
        capability,
    ) == supplies(after, order[i], capability) by {
        if i > 0 {
            assert(order[i] == vm.types[t.id as int].mro@[i - 1]);
        }
    }
    lemma_first_supplier_frame(vm.types, after, order, capability);
}

impl VirtualMachine {
    /// The invariant of the machine. Every function that makes or changes a
    /// machine keeps it.
    pub open spec fn wf(&self) -> bool {
        self@.wf()
    }

    /// A machine with its two own types, `object` and `iterator`, and no
    /// object.
    pub fn new() -> (vm: VirtualMachine)
        ensures
            vm.wf(),
            vm@.types.len() == 2,
            vm@.objects.len() == 0,
    {
        let root = PyType {
            name: String::from_str("object"),
            slots: PyTypeSlots::new(),
            mro: Vec::new(),
        };
        let slots = PyTypeSlots {
            iter: Some(IterSlot::SelfIter),
            iternext: Some(IterNextSlot::SequenceIterator),
            getitem: None,
            length_hint: None,
        };
        let mro: Vec<PyTypeRef> = vec![PyTypeRef { id: 0 }];
        let iterator = PyType { name: String::from_str("iterator"), slots, mro };
        let types: Vec<PyType> = vec![root, iterator];
        let vm = VirtualMachine { types, objects: Vec::new() };
        proof {
            assert(vm@.types[1].mro@ =~= seq![object_type()]);
            assert(vm@.type_wf(0));
            assert(vm@.type_wf(1));
        }
        vm
    }

    /// The root type.
    pub fn object_type(&self) -> (t: PyTypeRef)
        ensures
            t == object_type(),
    {
        PyTypeRef { id: 0 }
    }

    /// The type of the machine's own sequence iterators.
    pub fn iterator_type(&self) -> (t: PyTypeRef)
        ensures
            t == iterator_type(),
    {
        PyTypeRef { id: 1 }
    }

    /// Defines a type with the given name, ancestors and slots, and returns
    /// its handle; or defines nothing, where the machine does not admit it.
    pub fn new_class(&mut self, name: String, mro: Vec<PyTypeRef>, slots: PyTypeSlots) -> (r:
        Option<PyTypeRef>)
        requires
            old(self).wf(),
        ensures
            final(self).wf(),
            old(self)@.admits(mro@, slots) ==> r == Some(PyTypeRef { id: old(self)@.types.len() as usize })
                && final(self)@ == old(self)@.with_type(PyType { name, slots, mro }),
            !old(self)@.admits(mro@, slots) ==> r is None && final(self)@ == old(self)@,
    {
        if let Some(IterNextSlot::SequenceIterator) = &slots.iternext {
            return None;
        }
        let n: usize = self.types.len();
        let mut k: usize = 0;
        while k < mro.len()
            invariant
                k <= mro.len(),
                self.wf(),
                self@ == old(self)@,
                n == self.types.len(),
                n >= 2,
                forall|i: int| 0 <= i < k ==> (#[trigger] mro@[i]).id < n && mro@[i] != iterator_type(),
            decreases mro.len() - k,
        {
            if mro[k].id >= n || mro[k].id == 1 {
                proof {
                    assert(!(mro@[k as int].id < n && mro@[k as int] != iterator_type()));
                }
                return None;
            }
            k = k + 1;
        }
        let ghost before = self@;
        let ghost ty = PyType { name, slots, mro };
        self.types.push(PyType { name, slots, mro });
        proof {
            let after = self@;
            assert(self.types@.len() == self.types.len());
            assert(after == before.with_type(ty));
            assert(after.builtins_wf());
            assert forall|t: int| 0 <= t < after.types.len() implies #[trigger] after.type_wf(t) by {
                if t < before.types.len() {
                    assert(before.type_wf(t));
                }
            }
            assert forall|o: int| 0 <= o < after.objects.len() implies #[trigger] after.object_wf(
                o,
            ) by {
                assert(before.object_wf(o));
                if let PyObjectPayload::SequenceIterator(PySequenceIterator::Active { target, .. }) =
                    after.objects[o].payload {
                    assert(before.class_of(target).id < before.types.len()) by {
                        if target.id < before.objects.len() {
                            assert(before.object_wf(target.id as int));
                        }
                    }
                    lemma_resolution_after_new_type(
                        before,
                        ty,
                        before.class_of(target),
                        Capability::GetItem,
                    );
                }
            }
        }
        Some(PyTypeRef { id: n })
    }

    /// Makes a bare value of the type behind `class` and returns its handle;
    /// or makes nothing, where `class` is no type of the machine or is its
    /// iterator type, whose values only an iteration makes.
    pub fn new_object(&mut self, class: PyTypeRef) -> (r: Option<PyObjectRef>)
        requires
            old(self).wf(),
        ensures
            final(self).wf(),
            class.id < old(self)@.types.len() && class != iterator_type() ==> r == Some(
                PyObjectRef { id: old(self)@.objects.len() as usize },
            ) && final(self)@ == old(self)@.with_object(
                PyObject { class, payload: PyObjectPayload::Instance },
            ),
            !(class.id < old(self)@.types.len() && class != iterator_type()) ==> r is None
                && final(self)@ == old(self)@,
    {
        if class.id >= self.types.len() || class.id == 1 {
            return None;
        }
        let r = self.push_object(PyObject { class, payload: PyObjectPayload::Instance });
        Some(r)
    }

    /// Adds an object that keeps the invariant, and returns its handle.
    pub(crate) fn push_object(&mut self, object: PyObject) -> (r: PyObjectRef)
        requires
            old(self).wf(),
            object.class.id < old(self)@.types.len(),
            object.class == iterator_type() <==> object.payload is SequenceIterator,
            object.payload matches PyObjectPayload::SequenceIterator(
                PySequenceIterator::Active { target, .. },
            ) ==> old(self)@.resolve(target, Capability::GetItem) is Some,
        ensures
            final(self).wf(),
            r == (PyObjectRef { id: old(self)@.objects.len() as usize }),
            final(self)@ == old(self)@.with_object(object),
    {
        let n: usize = self.objects.len();
        let ghost before = self@;
        self.objects.push(object);
        proof {
            let after = self@;
            assert(self.objects@.len() == self.objects.len());
            assert(after == before.with_object(object));
            assert forall|t: int| 0 <= t < after.types.len() implies #[trigger] after.type_wf(t) by {
                assert(before.type_wf(t));
            }
            assert forall|o: int| 0 <= o < after.objects.len() implies #[trigger] after.object_wf(
                o,
            ) by {
                if o < before.objects.len() {
                    assert(before.object_wf(o));
                }
                if let PyObjectPayload::SequenceIterator(PySequenceIterator::Active { target, .. }) =
                    after.objects[o].payload {
                    assert(before.resolve(target, Capability::GetItem) is Some);
                    lemma_resolution_in_table(before, before.class_of(target), Capability::GetItem);
                    assert(target.id < before.objects.len());
                    assert(after.class_of(target) == before.class_of(target));
                }
            }
        }
        PyObjectRef { id: n }
    }

    /// Replaces what the sequence iterator behind `obj` holds.
    pub(crate) fn set_sequence_state(&mut self, obj: PyObjectRef, state: PySequenceIterator)
        requires
            old(self).wf(),
            obj.id < old(self)@.objects.len(),
            old(self)@.objects[obj.id as int].payload is SequenceIterator,
            state matches PySequenceIterator::Active { target, .. } ==> old(self)@.resolve(
                target,
                Capability::GetItem,
            ) is Some,
        ensures
            final(self).wf(),
            final(self)@ == old(self)@.with_payload(obj, PyObjectPayload::SequenceIterator(state)),
    {
        let ghost before = self@;
        let class = self.objects[obj.id].class;
        self.objects.set(obj.id, PyObject { class, payload: PyObjectPayload::SequenceIterator(state) });
        proof {
            let after = self@;
            assert(after == before.with_payload(obj, PyObjectPayload::SequenceIterator(state)));
            assert(before.object_wf(obj.id as int));
            assert forall|t: int| 0 <= t < after.types.len() implies #[trigger] after.type_wf(t) by {
                assert(before.type_wf(t));
            }
            assert forall|x: PyObjectRef| after.class_of(x) == before.class_of(x) by {}
            assert forall|o: int| 0 <= o < after.objects.len() implies #[trigger] after.object_wf(
                o,
            ) by {
                assert(before.object_wf(o));
            }
        }
    }

    /// The type of the value behind `obj`.
    pub fn class_of(&self, obj: &PyObjectRef) -> (t: PyTypeRef)
        requires
            self.wf(),
        ensures
            t == self@.class_of(*obj),
            t.id < self@.types.len(),
    {
        if obj.id < self.objects.len() {
            proof {
                assert(self@.object_wf(obj.id as int));
            }
            self.objects[obj.id].class
        } else {
            PyTypeRef { id: 0 }
        }
    }

    /// The name of the type of the value behind `obj`.
    pub fn class_name(&self, obj: &PyObjectRef) -> (name: &str)
        requires
            self.wf(),
        ensures
            name@ == self@.class_name(*obj),
    {
        let t = self.class_of(obj);
        self.types[t.id].name.as_str()
    }

    /// The type behind `t`, if it is a type of the machine.
    pub fn get_type(&self, t: PyTypeRef) -> (ty: Option<&PyType>)
        ensures
            match ty {
                Some(ty) => t.id < self@.types.len() && *ty == self@.types[t.id as int],
                None => t.id >= self@.types.len(),
            },
    {
        if t.id < self.types.len() {
            Some(&self.types[t.id])
        } else {
            None
        }
    }

    /// The slot table of the type behind `t`, which is a type of the
    /// machine.
    pub(crate) fn slots_of(&self, t: PyTypeRef) -> (slots: &PyTypeSlots)
        requires
            t.id < self@.types.len(),
        ensures
            *slots == self@.types[t.id as int].slots,
    {
        &self.types[t.id].slots
    }

    /// What the value behind `obj` holds.
    pub fn payload_of(&self, obj: &PyObjectRef) -> (payload: PyObjectPayload)
        ensures
            payload == self@.payload_of(*obj),
    {
        if obj.id < self.objects.len() {
            self.objects[obj.id].payload
        } else {
            PyObjectPayload::Instance
        }
    }

    /// Finds the nearest type, from `class` upwards, that supplies
    /// `capability`: `class` itself if it does, else the first of its
    /// ancestors, in their given order, that does.
    pub fn mro_find(&self, class: PyTypeRef, capability: Capability) -> (r: Option<PyTypeRef>)
        requires
            self.wf(),
        ensures
            r == resolution(self@.types, class, capability),
            r matches Some(owner) ==> owner.id < self@.types.len() && self@.types[owner.id as int].slots.supplies(
                capability,
            ),
    {
        if class.id >= self.types.len() {
            return None;
        }
        proof {
            lemma_resolution_in_table(self@, class, capability);
        }
        let ty = &self.types[class.id];
        let ghost order = linearization(self@.types, class);
        if ty.slots.has(capability) {
            return Some(class);
        }
        let mut k: usize = 0;
        proof {
            assert(order.skip(1) =~= ty.mro@.skip(0));
        }
        while k < ty.mro.len()
            invariant
                self.wf(),
                class.id < self@.types.len(),
                *ty == self@.types[class.id as int],
                k <= ty.mro.len(),
                order == linearization(self@.types, class),
                first_supplier(self@.types, order, capability) == first_supplier(
                    self@.types,
                    ty.mro@.skip(k as int),
                    capability,
                ),
            decreases ty.mro.len() - k,
        {
            let ancestor = ty.mro[k];
            proof {
                assert(self@.type_wf(class.id as int));
                assert(ty.mro@.skip(k as int)[0] == ancestor);
                assert(ty.mro@.skip(k as int).skip(1) =~= ty.mro@.skip(k as int + 1));
                assert(ancestor.id < self@.types.len());
            }
            if self.types[ancestor.id].slots.has(capability) {
                return Some(ancestor);
            }
            k = k + 1;
        }
        None
    }

    /// Asks the value behind `obj` how many elements it has left to give.
    /// The answer is advisory: it may be wrong, and there may be none.
    pub fn length_hint(&self, obj: PyObjectRef) -> (r: PyResult<Option<usize>>)
        requires
            self.wf(),
        ensures
            match self@.length_hint_slot(obj) {
                Some(f) => f.rel(obj, r),
                None => r == Ok::<Option<usize>, crate::exceptions::PyBaseException>(None),
            },
    {
        let class = self.class_of(&obj);
        match self.mro_find(class, Capability::LengthHint) {
            Some(owner) => match &self.types[owner.id].slots.length_hint {
                Some(f) => f.call(obj),
                None => Ok(None),
            },
            None => Ok(None),
        }
    }
}

} // verus!
