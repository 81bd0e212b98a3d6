//! The iteration protocol of a small dynamically typed object runtime.
//!
//! A value becomes a pull-based producer through [`PyObjectRef::get_iter`], which
//! negotiates between the explicit iterator capability and the positional
//! indexing fallback. Each pull is resolved through the value's type and its
//! ancestors by [`PyIter::next`], and its outcome is a [`PyIterReturn`]: an element,
//! or the end of the sequence, which is data and not a failure.

pub mod exceptions;
pub mod iter_return;
pub mod laws;
pub mod object;
pub mod protocol;
pub mod slots;
pub mod types;
pub mod vm;

pub use exceptions::ExceptionKind;
pub use exceptions::ExceptionView;
pub use exceptions::PyBaseException;
pub use exceptions::PyResult;
pub use iter_return::IntoPyResult;
pub use iter_return::PyIterReturn;
pub use object::PyObjectRef;
pub use object::PyTypeRef;
pub use protocol::IntoPyObject;
pub use protocol::PyIter;
pub use protocol::PyIterIter;
pub use protocol::PyIterIterView;
pub use protocol::TryFromObject;
pub use slots::Capability;
pub use slots::GetItemFunc;
pub use slots::IterFunc;
pub use slots::IterNextFunc;
pub use slots::IterNextSlot;
pub use slots::IterNextWrapper;
pub use slots::IterSlot;
pub use slots::LengthHintFunc;
pub use slots::PyTypeSlots;
pub use slots::SlotFunction;
pub use types::PyObject;
pub use types::PyObjectPayload;
pub use types::PySequenceIterator;
pub use types::PyType;
pub use vm::VirtualMachine;
pub use vm::VmView;
