//! The runtime's objects and their conversion to and from native values.

use vstd::prelude::*;

verus! {

/// A value as the object runtime holds it.
#[derive(Debug, Clone, PartialEq, Eq)]
pub enum PyObject {
    /// The runtime's null value.
    Nothing,
    Bool(bool),
    Int(i64),
    Str(String),
}

/// Conversion of a runtime object into a native value.
pub trait FromPyObject: Sized {
    /// The native value that `obj` converts to, or `None` where it has the
    /// wrong shape.
    spec fn extract_spec(obj: PyObject) -> Option<Self>;

    fn extract(obj: &PyObject) -> (r: Option<Self>)
        ensures
            r == Self::extract_spec(*obj),
    ;
}

/// Conversion of a native value into a runtime object.
pub trait ToPyObject {
    /// The object that `self` converts to.
    spec fn to_object_spec(&self) -> PyObject;

    fn to_object(&self) -> (r: PyObject)
        ensures
            r == self.to_object_spec(),
    ;
}

impl FromPyObject for PyObject {
    open spec fn extract_spec(obj: PyObject) -> Option<PyObject> {
        Some(obj)
    }

    fn extract(obj: &PyObject) -> (r: Option<PyObject>) {
        let r = match obj {
            PyObject::Nothing => PyObject::Nothing,
            PyObject::Bool(b) => PyObject::Bool(*b),
            PyObject::Int(n) => PyObject::Int(*n),
            PyObject::Str(s) => PyObject::Str(s.clone()),
        };
        Some(r)
    }
}

impl ToPyObject for PyObject {
    open spec fn to_object_spec(&self) -> PyObject {
        *self
    }

    fn to_object(&self) -> (r: PyObject) {
        match self {
            PyObject::Nothing => PyObject::Nothing,
            PyObject::Bool(b) => PyObject::Bool(*b),
            PyObject::Int(n) => PyObject::Int(*n),
            PyObject::Str(s) => PyObject::Str(s.clone()),
        }
    }
}

impl FromPyObject for bool {
    open spec fn extract_spec(obj: PyObject) -> Option<bool> {
        match obj {
            PyObject::Bool(b) => Some(b),
            _ => None,
        }
    }

    fn extract(obj: &PyObject) -> (r: Option<bool>) {
        match obj {
            PyObject::Bool(b) => Some(*b),
            _ => None,
        }
    }
}

impl ToPyObject for bool {
    open spec fn to_object_spec(&self) -> PyObject {
        PyObject::Bool(*self)
    }

    fn to_object(&self) -> (r: PyObject) {
        PyObject::Bool(*self)
    }
}

impl FromPyObject for i64 {
    open spec fn extract_spec(obj: PyObject) -> Option<i64> {
        match obj {
            PyObject::Int(n) => Some(n),
            _ => None,
        }
    }

    fn extract(obj: &PyObject) -> (r: Option<i64>) {
        match obj {
            PyObject::Int(n) => Some(*n),
            _ => None,
        }
    }
}

impl ToPyObject for i64 {
    open spec fn to_object_spec(&self) -> PyObject {
        PyObject::Int(*self)
    }

    fn to_object(&self) -> (r: PyObject) {
        PyObject::Int(*self)
    }
}

impl FromPyObject for String {
    open spec fn extract_spec(obj: PyObject) -> Option<String> {
        match obj {
            PyObject::Str(s) => Some(s),
            _ => None,
        }
    }

    fn extract(obj: &PyObject) -> (r: Option<String>) {
        match obj {
            PyObject::Str(s) => Some(s.clone()),
            _ => None,
        }
    }
}

impl ToPyObject for String {
    open spec fn to_object_spec(&self) -> PyObject {
        PyObject::Str(*self)
    }

    fn to_object(&self) -> (r: PyObject) {
        PyObject::Str(self.clone())
    }
}

/// An object passed through unconverted comes back as itself.
pub proof fn lemma_round_trip_object(obj: PyObject)
    ensures
        <PyObject as FromPyObject>::extract_spec(obj.to_object_spec()) == Some(obj),
{
}

/// A boolean converted to an object converts back to itself.
pub proof fn lemma_round_trip_bool(b: bool)
    ensures
        <bool as FromPyObject>::extract_spec(b.to_object_spec()) == Some(b),
{
}

/// An integer converted to an object converts back to itself.
pub proof fn lemma_round_trip_int(n: i64)
    ensures
        <i64 as FromPyObject>::extract_spec(n.to_object_spec()) == Some(n),
{
}

/// A string converted to an object converts back to itself.
pub proof fn lemma_round_trip_str(s: String)
    ensures
        <String as FromPyObject>::extract_spec(s.to_object_spec()) == Some(s),
{
}

} // verus!
