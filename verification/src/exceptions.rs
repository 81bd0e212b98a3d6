//! Failures, and the two signals among them that end an iteration.

use vstd::prelude::*;
use vstd::string::*;

use crate::object::PyObjectRef;

verus! {

/// What a failure is an instance of.
#[derive(Clone, Copy, PartialEq, Eq, Structural, Debug, Hash)]
pub enum ExceptionKind {
    /// The signal that a synchronous sequence has ended.
    StopIteration,
    /// The signal that an asynchronous sequence has ended.
    StopAsyncIteration,
    /// An index was out of range.
    IndexError,
    /// A value did not have the capability asked of it.
    TypeError,
    /// A key was not found.
    KeyError,
    /// A value was of the right type and unacceptable.
    ValueError,
    /// Any other failure of a running program.
    RuntimeError,
}

/// A failure: its kind, the values it carries, and its text.
#[derive(Clone, PartialEq, Eq, Debug)]
pub struct PyBaseException {
    kind: ExceptionKind,
    args: Vec<PyObjectRef>,
    message: String,
}

/// What a failure holds, as mathematical values.
pub struct ExceptionView {
    pub kind: ExceptionKind,
    pub args: Seq<PyObjectRef>,
    pub message: Seq<char>,
}

/// The outcome of an operation of the runtime.
pub type PyResult<T = PyObjectRef> = Result<T, PyBaseException>;

impl View for PyBaseException {
    type V = ExceptionView;

    closed spec fn view(&self) -> ExceptionView {
        ExceptionView { kind: self.kind, args: self.args@, message: self.message@ }
    }
}

/// The argument list that carries `value`: one argument, or none.
pub open spec fn payload_args(value: Option<PyObjectRef>) -> Seq<PyObjectRef> {
    match value {
        Some(v) => seq![v],
        None => Seq::empty(),
    }
}

impl ExceptionView {
    /// The first argument, if there is one.
    pub open spec fn first_arg(self) -> Option<PyObjectRef> {
        if self.args.len() > 0 {
            Some(self.args[0])
        } else {
            None
        }
    }

    /// A failure of the kind `TypeError` with the given text and no arguments.
    pub open spec fn type_error(message: Seq<char>) -> ExceptionView {
        ExceptionView { kind: ExceptionKind::TypeError, args: Seq::empty(), message }
    }

    /// The failure of advancing a value whose type supplies no way to advance.
    pub open spec fn not_an_iterator(class_name: Seq<char>) -> ExceptionView {
        Self::type_error("'"@ + class_name + "' object is not an iterator"@)
    }

    /// The failure of iterating a value that can neither make an iterator nor be indexed.
    pub open spec fn not_iterable(class_name: Seq<char>) -> ExceptionView {
        Self::type_error("'"@ + class_name + "' object is not iterable"@)
    }

    /// The failure of iterating a value of the type `class_name`, whose
    /// iterator hook returned what cannot be advanced. The type named is
    /// the one whose hook was asked, not the type of what it returned.
    pub open spec fn bad_iterator_protocol(class_name: Seq<char>) -> ExceptionView {
        Self::type_error("iterator protocol returned a non-iterator of type "@ + class_name)
    }
}

impl PyBaseException {
    /// A failure of the given kind that carries `args` and has no text.
    pub fn new(kind: ExceptionKind, args: Vec<PyObjectRef>) -> (e: PyBaseException)
        ensures
            e@ == (ExceptionView { kind, args: args@, message: Seq::empty() }),
    {
        PyBaseException { kind, args, message: String::new() }
    }

    /// A failure of the given kind with the given text and no arguments.
    pub fn with_message(kind: ExceptionKind, message: String) -> (e: PyBaseException)
        ensures
            e@ == (ExceptionView { kind, args: Seq::empty(), message: message@ }),
    {
        PyBaseException { kind, args: Vec::new(), message }
    }

    /// The synchronous end-of-sequence signal, carrying `value` if there is one.
    pub fn new_stop_iteration(value: Option<PyObjectRef>) -> (e: PyBaseException)
        ensures
            e@ == (ExceptionView {
                kind: ExceptionKind::StopIteration,
                args: payload_args(value),
                message: Seq::empty(),
            }),
    {
        Self::new(ExceptionKind::StopIteration, args_of(value))
    }

    /// The asynchronous end-of-sequence signal, carrying `value` if there is one.
    pub fn new_stop_async_iteration(value: Option<PyObjectRef>) -> (e: PyBaseException)
        ensures
            e@ == (ExceptionView {
                kind: ExceptionKind::StopAsyncIteration,
                args: payload_args(value),
                message: Seq::empty(),
            }),
    {
        Self::new(ExceptionKind::StopAsyncIteration, args_of(value))
    }

    /// See [`ExceptionView::not_an_iterator`].
    pub fn not_an_iterator(class_name: &str) -> (e: PyBaseException)
        ensures
            e@ == ExceptionView::not_an_iterator(class_name@),
    {
        let mut message = String::from_str("'");
        message.append(class_name);
        message.append("' object is not an iterator");
        Self::with_message(ExceptionKind::TypeError, message)
    }

    /// See [`ExceptionView::not_iterable`].
    pub fn not_iterable(class_name: &str) -> (e: PyBaseException)
        ensures
            e@ == ExceptionView::not_iterable(class_name@),
    {
        let mut message = String::from_str("'");
        message.append(class_name);
        message.append("' object is not iterable");
        Self::with_message(ExceptionKind::TypeError, message)
    }

    /// See [`ExceptionView::bad_iterator_protocol`].
    pub fn bad_iterator_protocol(class_name: &str) -> (e: PyBaseException)
        ensures
            e@ == ExceptionView::bad_iterator_protocol(class_name@),
    {
        let mut message = String::from_str("iterator protocol returned a non-iterator of type ");
        message.append(class_name);
        Self::with_message(ExceptionKind::TypeError, message)
    }

    /// The kind of the failure.
    pub fn kind(&self) -> (k: ExceptionKind)
        ensures
            k == self@.kind,
    {
        self.kind
    }

    /// Whether the failure is of the given kind.
    pub fn isinstance(&self, kind: ExceptionKind) -> (b: bool)
        ensures
            b == (self@.kind == kind),
    {
        self.kind == kind
    }

    /// The argument at `idx`, if the failure carries that many.
    pub fn get_arg(&self, idx: usize) -> (arg: Option<PyObjectRef>)
        ensures
            arg == if idx < self@.args.len() {
                Some(self@.args[idx as int])
            } else {
                None::<PyObjectRef>
            },
    {
        if idx < self.args.len() {
            Some(self.args[idx])
        } else {
            None
        }
    }

    /// The values that the failure carries.
    pub fn args(&self) -> (args: &Vec<PyObjectRef>)
        ensures
            args@ == self@.args,
    {
        &self.args
    }

    /// The text of the failure.
    pub fn message(&self) -> (text: &str)
        ensures
            text@ == self@.message,
    {
        self.message.as_str()
    }
}

/// The argument list that carries `value`.
fn args_of(value: Option<PyObjectRef>) -> (args: Vec<PyObjectRef>)
    ensures
        args@ == payload_args(value),
{
    let mut args: Vec<PyObjectRef> = Vec::new();
    if let Some(v) = value {
        args.push(v);
    }
    args
}

} // verus!
