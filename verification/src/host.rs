//! The host interpreter, behind trusted declarations.
//!
//! Helpers are callables that live in the host. What a call into the host
//! returns depends on the host's state, so nothing is claimed of any result
//! here: each function below only says which host operation it performs.
//! Every function attaches to the interpreter for the length of one call and
//! gives `None` where the interpreter cannot be attached to.
//!
//! A floating-point number crosses as its decimal text, which the host
//! prints in the shortest form that reads back as the same number. It never
//! takes a form that this crate could compute with.

use pyo3::types::{PyAnyMethods, PyDict, PyDictMethods, PyFloat, PyTuple};
use pyo3::{IntoPyObjectExt, Py, PyAny, Python};
use vstd::prelude::*;

verus! {

/// A handle to a host object. Opaque to the verifier.
#[verifier::external_type_specification]
#[verifier::external_body]
#[verifier::reject_recursive_types(T)]
pub struct ExPy<T>(Py<T>);

/// The host's dynamic object type. Opaque to the verifier.
#[verifier::external_type_specification]
#[verifier::external_body]
pub struct ExPyAny(PyAny);

/// `Py::call1` on a tuple made by `PyTuple::new`: calls `callable` with
/// `args` as its positional arguments. `Some(Ok(..))` holds what the callable
/// returned, `Some(Err(..))` the debug text of the exception it raised.
#[verifier::external_body]
pub(crate) fn invoke(callable: &Py<PyAny>, args: Vec<Py<PyAny>>) -> (r: Option<
    Result<Py<PyAny>, String>,
>) {
    Python::try_attach(
        |py|
            {
                let tuple = PyTuple::new(py, args).map_err(|e| format!("{:?}", e))?;
                callable.call1(py, tuple).map_err(|e| format!("{:?}", e))
            },
    )
}

/// `Py::getattr`, then `extract` as text: the text that the object holds
/// under the attribute `name`, or the debug text of the host's error where
/// it has no such attribute or holds no text there.
#[verifier::external_body]
pub(crate) fn attribute_text(object: &Py<PyAny>, name: &str) -> (r: Option<
    Result<String, String>,
>) {
    Python::try_attach(
        |py|
            {
                let held = object.getattr(py, name).map_err(|e| format!("{:?}", e))?;
                held.extract::<String>(py).map_err(|e| format!("{:?}", e))
            },
    )
}

/// `Python::None`: the host's null object.
#[verifier::external_body]
pub(crate) fn null_object() -> (r: Option<Py<PyAny>>) {
    Python::try_attach(|py| py.None())
}

/// `into_py_any` of a `bool`: the host's boolean.
#[verifier::external_body]
pub(crate) fn bool_object(b: bool) -> (r: Option<Py<PyAny>>) {
    Python::try_attach(|py| b.into_py_any(py).ok())?
}

/// `into_py_any` of an `i128`: the host's integer of that value.
#[verifier::external_body]
pub(crate) fn signed_object(n: i128) -> (r: Option<Py<PyAny>>) {
    Python::try_attach(|py| n.into_py_any(py).ok())?
}

/// `into_py_any` of a `u128`: the host's integer of that value.
#[verifier::external_body]
pub(crate) fn unsigned_object(n: u128) -> (r: Option<Py<PyAny>>) {
    Python::try_attach(|py| n.into_py_any(py).ok())?
}

/// `Python::get_type` of `PyFloat`, then `call1` on a text: the host's
/// floating-point number that the text denotes, as the host itself reads it;
/// `None` where the host reads no number in it.
#[verifier::external_body]
pub(crate) fn number_object(text: &str) -> (r: Option<Py<PyAny>>) {
    Python::try_attach(|py| Some(py.get_type::<PyFloat>().call1((text,)).ok()?.unbind()))?
}

/// `into_py_any` of a `char`: the host's string of that one character.
#[verifier::external_body]
pub(crate) fn char_object(c: char) -> (r: Option<Py<PyAny>>) {
    Python::try_attach(|py| c.into_py_any(py).ok())?
}

/// `into_py_any` of a `&str`: the host's string.
#[verifier::external_body]
pub(crate) fn text_object(s: &str) -> (r: Option<Py<PyAny>>) {
    Python::try_attach(|py| s.into_py_any(py).ok())?
}

/// `into_py_any` of a byte slice: the host's bytes object.
#[verifier::external_body]
pub(crate) fn bytes_object(b: &Vec<u8>) -> (r: Option<Py<PyAny>>) {
    Python::try_attach(|py| b.as_slice().into_py_any(py).ok())?
}

/// `Bound::cast` to `PyDict`, then `items`, then `extract`: the key and value
/// objects of a host dict, from the list of pairs that the host makes of it
/// in one step, in the dict's own order; `None` for any other object.
#[verifier::external_body]
pub(crate) fn dict_entries(obj: &Py<PyAny>) -> (r: Option<Vec<(Py<PyAny>, Py<PyAny>)>>) {
    Python::try_attach(
        |py|
            {
                let pairs = obj.bind(py).cast::<PyDict>().ok()?.items();
                pairs.extract::<Vec<(Py<PyAny>, Py<PyAny>)>>().ok()
            },
    )?
}

/// `extract` as a `Vec` of objects: the items of a host sequence that is not
/// a string; `None` for any other object.
#[verifier::external_body]
pub(crate) fn sequence_items(obj: &Py<PyAny>) -> (r: Option<Vec<Py<PyAny>>>) {
    Python::try_attach(|py| obj.extract::<Vec<Py<PyAny>>>(py).ok())?
}

/// `extract` as `String`: the text of a host string; `None` for any other
/// object.
#[verifier::external_body]
pub(crate) fn as_text(obj: &Py<PyAny>) -> (r: Option<String>) {
    Python::try_attach(|py| obj.extract::<String>(py).ok())?
}

/// `extract` as `bool`: the value of a host boolean; `None` for any other
/// object.
#[verifier::external_body]
pub(crate) fn as_bool(obj: &Py<PyAny>) -> (r: Option<bool>) {
    Python::try_attach(|py| obj.extract::<bool>(py).ok())?
}

/// `extract` as `i64`: the value of a host integer that fits; `None` for any
/// other object.
#[verifier::external_body]
pub(crate) fn as_int(obj: &Py<PyAny>) -> (r: Option<i64>) {
    Python::try_attach(|py| obj.extract::<i64>(py).ok())?
}

/// `Bound::cast` to `PyFloat`, then `repr`: the decimal text that the host
/// prints for a floating-point object; `None` for any other object.
#[verifier::external_body]
pub(crate) fn number_text(obj: &Py<PyAny>) -> (r: Option<String>) {
    Python::try_attach(|py| Some(obj.bind(py).cast::<PyFloat>().ok()?.repr().ok()?.to_string()))?
}

} // verus!
