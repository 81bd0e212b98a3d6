//! The outcome of one pull on an iterator, and its conversions to and from
//! the failure-carrying form.

use vstd::prelude::*;

use crate::exceptions::ExceptionKind;
use crate::exceptions::ExceptionView;
use crate::exceptions::PyBaseException;
use crate::exceptions::PyResult;
use crate::exceptions::payload_args;
use crate::object::PyObjectRef;

verus! {

/// What one pull on an iterator gives: an element, or the end of the
/// sequence, with the final value that the sequence may leave behind.
/// The end of a sequence is an ordinary outcome, never a failure.
#[derive(Clone, Copy, PartialEq, Eq, Debug)]
pub enum PyIterReturn<T = PyObjectRef> {
    /// An element was produced.
    Return(T),
    /// The sequence has ended.
    StopIteration(Option<PyObjectRef>),
}

/// A value that can be handed on as a plain outcome, in which the end of a
/// sequence is a raised signal again.
pub trait IntoPyResult: Sized {
    /// Whether `r` is what `self` is handed on as.
    spec fn handed_on_as(self, r: PyResult) -> bool;

    fn into_pyresult(self) -> (r: PyResult)
        ensures
            self.handed_on_as(r),
    ;
}

impl PyIterReturn {
    /// What an outcome built on the general failure path means to an
    /// iteration: a value is an element, the end-of-sequence signal ends the
    /// sequence with the signal's first argument as its final value, and any
    /// other failure stays the failure it is.
    pub open spec fn general_outcome(result: PyResult) -> PyResult<PyIterReturn> {
        match result {
            Ok(obj) => Ok(PyIterReturn::Return(obj)),
            Err(err) => if err@.kind == ExceptionKind::StopIteration {
                Ok(PyIterReturn::StopIteration(err@.first_arg()))
            } else {
                Err(err)
            },
        }
    }

    /// What the outcome of indexing at the next position means to an
    /// iteration: as [`Self::general_outcome`], and an index out of range
    /// ends the sequence with no final value.
    pub open spec fn indexing_outcome(result: PyResult) -> PyResult<PyIterReturn> {
        match result {
            Ok(obj) => Ok(PyIterReturn::Return(obj)),
            Err(err) => if err@.kind == ExceptionKind::IndexError {
                Ok(PyIterReturn::StopIteration(None))
            } else if err@.kind == ExceptionKind::StopIteration {
                Ok(PyIterReturn::StopIteration(err@.first_arg()))
            } else {
                Err(err)
            },
        }
    }

    /// Whether `r` is the end-of-sequence signal of the given kind that
    /// carries `value`, or the element itself.
    pub open spec fn raised_as(self, kind: ExceptionKind, r: PyResult) -> bool {
        match self {
            PyIterReturn::Return(obj) => r == Ok::<PyObjectRef, PyBaseException>(obj),
            PyIterReturn::StopIteration(value) => r matches Err(err) && err@ == (ExceptionView {
                kind,
                args: payload_args(value),
                message: Seq::empty(),
            }),
        }
    }

    /// Normalizes an outcome of the general failure path.
    pub fn from_pyresult(result: PyResult) -> (r: PyResult<PyIterReturn>)
        ensures
            r == Self::general_outcome(result),
    {
        match result {
            Ok(obj) => Ok(PyIterReturn::Return(obj)),
            Err(err) => {
                if err.isinstance(ExceptionKind::StopIteration) {
                    let args = err.get_arg(0);
                    Ok(PyIterReturn::StopIteration(args))
                } else {
                    Err(err)
                }
            },
        }
    }

    /// Normalizes the outcome of indexing a value at the next position.
    pub fn from_getitem_result(result: PyResult) -> (r: PyResult<PyIterReturn>)
        ensures
            r == Self::indexing_outcome(result),
    {
        match result {
            Ok(obj) => Ok(PyIterReturn::Return(obj)),
            Err(err) => {
                if err.isinstance(ExceptionKind::IndexError) {
                    Ok(PyIterReturn::StopIteration(None))
                } else if err.isinstance(ExceptionKind::StopIteration) {
                    let args = err.get_arg(0);
                    Ok(PyIterReturn::StopIteration(args))
                } else {
                    Err(err)
                }
            },
        }
    }

    /// Hands the outcome to an asynchronous consumer: an element is a plain
    /// success, and the end of the sequence is the asynchronous
    /// end-of-sequence signal, whose arguments are the final value if there
    /// is one and empty if there is none.
    pub fn into_async_pyresult(self) -> (r: PyResult)
        ensures
            self.raised_as(ExceptionKind::StopAsyncIteration, r),
    {
        match self {
            PyIterReturn::Return(obj) => Ok(obj),
            PyIterReturn::StopIteration(v) => Err(PyBaseException::new_stop_async_iteration(v)),
        }
    }
}

impl IntoPyResult for PyIterReturn {
    open spec fn handed_on_as(self, r: PyResult) -> bool {
        self.raised_as(ExceptionKind::StopIteration, r)
    }

    /// Hands the outcome to a synchronous consumer: the end of the sequence
    /// is the synchronous end-of-sequence signal.
    fn into_pyresult(self) -> (r: PyResult) {
        match self {
            PyIterReturn::Return(obj) => Ok(obj),
            PyIterReturn::StopIteration(v) => Err(PyBaseException::new_stop_iteration(v)),
        }
    }
}

impl IntoPyResult for PyResult<PyIterReturn> {
    open spec fn handed_on_as(self, r: PyResult) -> bool {
        match self {
            Ok(ret) => ret.handed_on_as(r),
            Err(err) => r == Err::<PyObjectRef, PyBaseException>(err),
        }
    }

    /// A failure stays as it is; an outcome is handed on as
    /// [`PyIterReturn::into_pyresult`] does.
    fn into_pyresult(self) -> (r: PyResult) {
        match self {
            Ok(ret) => ret.into_pyresult(),
            Err(err) => Err(err),
        }
    }
}

} // verus!
