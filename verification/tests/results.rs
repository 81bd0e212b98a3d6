use iter_protocol::ExceptionKind;
use iter_protocol::IntoPyResult;
use iter_protocol::PyBaseException;
use iter_protocol::PyIterReturn;
use iter_protocol::PyObjectRef;
use iter_protocol::PyResult;

fn value(id: usize) -> PyObjectRef {
    PyObjectRef { id }
}

#[test]
fn from_pyresult_of_a_value_is_an_element() {
    assert_eq!(PyIterReturn::from_pyresult(Ok(value(1))), Ok(PyIterReturn::Return(value(1))));
}

#[test]
fn from_pyresult_of_the_end_signal_takes_its_first_argument() {
    let bare = PyBaseException::new_stop_iteration(None);
    assert_eq!(PyIterReturn::from_pyresult(Err(bare)), Ok(PyIterReturn::StopIteration(None)));
    let one = PyBaseException::new_stop_iteration(Some(value(42)));
    assert_eq!(
        PyIterReturn::from_pyresult(Err(one)),
        Ok(PyIterReturn::StopIteration(Some(value(42))))
    );
    let two = PyBaseException::new(ExceptionKind::StopIteration, vec![value(5), value(6)]);
    assert_eq!(
        PyIterReturn::from_pyresult(Err(two)),
        Ok(PyIterReturn::StopIteration(Some(value(5))))
    );
}

#[test]
fn from_pyresult_leaves_other_failures() {
    let index = PyBaseException::new(ExceptionKind::IndexError, Vec::new());
    assert_eq!(PyIterReturn::from_pyresult(Err(index.clone())), Err(index));
    let asynchronous = PyBaseException::new_stop_async_iteration(Some(value(1)));
    assert_eq!(PyIterReturn::from_pyresult(Err(asynchronous.clone())), Err(asynchronous));
    let typed = PyBaseException::not_iterable("T");
    assert_eq!(PyIterReturn::from_pyresult(Err(typed.clone())), Err(typed));
}

#[test]
fn from_getitem_result_of_a_value_is_an_element() {
    assert_eq!(
        PyIterReturn::from_getitem_result(Ok(value(3))),
        Ok(PyIterReturn::Return(value(3)))
    );
}

#[test]
fn from_getitem_result_out_of_range_ends_without_payload() {
    let index = PyBaseException::new(ExceptionKind::IndexError, vec![value(9)]);
    assert_eq!(
        PyIterReturn::from_getitem_result(Err(index)),
        Ok(PyIterReturn::StopIteration(None))
    );
}

#[test]
fn from_getitem_result_of_the_end_signal_takes_its_first_argument() {
    let one = PyBaseException::new_stop_iteration(Some(value(42)));
    assert_eq!(
        PyIterReturn::from_getitem_result(Err(one)),
        Ok(PyIterReturn::StopIteration(Some(value(42))))
    );
    let bare = PyBaseException::new_stop_iteration(None);
    assert_eq!(
        PyIterReturn::from_getitem_result(Err(bare)),
        Ok(PyIterReturn::StopIteration(None))
    );
}

#[test]
fn from_getitem_result_leaves_other_failures() {
    let key = PyBaseException::new(ExceptionKind::KeyError, vec![value(1)]);
    assert_eq!(PyIterReturn::from_getitem_result(Err(key.clone())), Err(key));
    let runtime = PyBaseException::with_message(ExceptionKind::RuntimeError, "x".to_string());
    assert_eq!(PyIterReturn::from_getitem_result(Err(runtime.clone())), Err(runtime));
}

#[test]
fn into_async_pyresult_of_an_element_is_plain_success() {
    assert_eq!(PyIterReturn::Return(value(8)).into_async_pyresult(), Ok(value(8)));
}

#[test]
fn into_async_pyresult_of_the_end_is_the_async_signal() {
    let none: PyIterReturn = PyIterReturn::StopIteration(None);
    let err = none.into_async_pyresult().unwrap_err();
    assert_eq!(err.kind(), ExceptionKind::StopAsyncIteration);
    assert!(err.args().is_empty());
    assert_eq!(err.get_arg(0), None);
    let some: PyIterReturn = PyIterReturn::StopIteration(Some(value(42)));
    let err = some.into_async_pyresult().unwrap_err();
    assert_eq!(err.kind(), ExceptionKind::StopAsyncIteration);
    assert_eq!(err.args(), &vec![value(42)]);
    assert_eq!(err.message(), "");
}

#[test]
fn into_pyresult_of_the_end_is_the_sync_signal() {
    assert_eq!(PyIterReturn::Return(value(8)).into_pyresult(), Ok(value(8)));
    let some: PyIterReturn = PyIterReturn::StopIteration(Some(value(42)));
    assert_eq!(some.into_pyresult(), Err(PyBaseException::new_stop_iteration(Some(value(42)))));
    let none: PyIterReturn = PyIterReturn::StopIteration(None);
    assert_eq!(none.into_pyresult(), Err(PyBaseException::new_stop_iteration(None)));
}

#[test]
fn into_pyresult_of_an_outcome_keeps_failures() {
    let failure = PyBaseException::new(ExceptionKind::ValueError, Vec::new());
    let failed: PyResult<PyIterReturn> = Err(failure.clone());
    assert_eq!(failed.into_pyresult(), Err(failure));
    let ended: PyResult<PyIterReturn> = Ok(PyIterReturn::StopIteration(None));
    assert_eq!(ended.into_pyresult(), Err(PyBaseException::new_stop_iteration(None)));
    let element: PyResult<PyIterReturn> = Ok(PyIterReturn::Return(value(2)));
    assert_eq!(element.into_pyresult(), Ok(value(2)));
}

#[test]
fn end_signal_round_trips_through_the_general_path() {
    let ended: PyIterReturn = PyIterReturn::StopIteration(Some(value(7)));
    assert_eq!(PyIterReturn::from_pyresult(ended.into_pyresult()), Ok(ended));
}

#[test]
fn exception_accessors() {
    let e = PyBaseException::new(ExceptionKind::KeyError, vec![value(1), value(2)]);
    assert_eq!(e.kind(), ExceptionKind::KeyError);
    assert!(e.isinstance(ExceptionKind::KeyError));
    assert!(!e.isinstance(ExceptionKind::IndexError));
    assert_eq!(e.get_arg(0), Some(value(1)));
    assert_eq!(e.get_arg(1), Some(value(2)));
    assert_eq!(e.get_arg(2), None);
    assert_eq!(e.message(), "");
    let m = PyBaseException::with_message(ExceptionKind::ValueError, "bad".to_string());
    assert_eq!(m.message(), "bad");
    assert!(m.args().is_empty());
}

#[test]
fn type_error_texts() {
    assert_eq!(PyBaseException::not_an_iterator("int").message(), "'int' object is not an iterator");
    assert_eq!(PyBaseException::not_iterable("int").message(), "'int' object is not iterable");
    assert_eq!(
        PyBaseException::bad_iterator_protocol("int").message(),
        "iterator protocol returned a non-iterator of type int"
    );
    assert_eq!(PyBaseException::not_iterable("").kind(), ExceptionKind::TypeError);
}

#[test]
fn handles_compare_by_number() {
    assert!(value(3).is(&value(3)));
    assert!(!value(3).is(&value(4)));
    assert_eq!(value(3).id(), 3);
}
