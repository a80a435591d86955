//! The mapping protocol: the operations a host type may implement, the entry
//! points the runtime calls, and the dispatch table built from a type's
//! declared capabilities.

use vstd::prelude::*;

use crate::capability::{AssignMode, Capabilities};
use crate::err::{
    assignment_not_supported_message, deletion_not_supported_message, key_conversion_message,
    negative_length_message, result_view, value_conversion_message, ErrorKind, PyErr,
};
use crate::object::{FromPyObject, PyObject, ToPyObject};

verus! {

/// Mapping interface, implemented by a host type.
///
/// The type declares in `capabilities` which operations it implements; the
/// entry points call an operation only where its flag is set, so the others
/// are never reached. Each operation is described by a spec function that
/// gives its result (and, for the mutating ones, the object afterwards). A
/// verified implementation gives each of them a body, since an operation's
/// `ensures` cannot be proved of the unknown value that stands there by
/// default; the entry points' contracts are stated over them.
pub trait PyMappingProtocol: Sized {
    /// The native key type of `getitem`, `setitem` and `delitem`.
    type Key: FromPyObject;
    /// The native value type of `setitem` and `contains`.
    type Value: FromPyObject;
    /// What `getitem` returns.
    type Item: ToPyObject;
    /// What `iter` and `reversed` return.
    type Iter: ToPyObject;

    closed spec fn host_name_spec() -> Seq<char> {
        arbitrary()
    }

    /// The host type's name, as error messages show it.
    fn host_name() -> (r: &'static str)
        ensures
            r@ == Self::host_name_spec(),
    ;

    closed spec fn capabilities_spec() -> Capabilities {
        arbitrary()
    }

    /// Which operations the type implements.
    fn capabilities() -> (r: Capabilities)
        ensures
            r == Self::capabilities_spec(),
    ;

    closed spec fn len_spec(&self) -> Result<isize, PyErr> {
        arbitrary()
    }

    fn __len__(&self) -> (r: Result<isize, PyErr>)
        requires
            Self::capabilities_spec().len,
        ensures
            r == self.len_spec(),
    ;

    closed spec fn getitem_spec(&self, key: Self::Key) -> Result<Self::Item, PyErr> {
        arbitrary()
    }

    fn __getitem__(&self, key: Self::Key) -> (r: Result<Self::Item, PyErr>)
        requires
            Self::capabilities_spec().getitem,
        ensures
            r == self.getitem_spec(key),
    ;

    /// The object after `setitem`, and its result.
    closed spec fn setitem_spec(self, key: Self::Key, value: Self::Value) -> (Self, Result<(), PyErr>) {
        arbitrary()
    }

    fn __setitem__(&mut self, key: Self::Key, value: Self::Value) -> (r: Result<(), PyErr>)
        requires
            Self::capabilities_spec().setitem,
        ensures
            (*final(self), r) == old(self).setitem_spec(key, value),
    ;

    /// The object after `delitem`, and its result.
    closed spec fn delitem_spec(self, key: Self::Key) -> (Self, Result<(), PyErr>) {
        arbitrary()
    }

    fn __delitem__(&mut self, key: Self::Key) -> (r: Result<(), PyErr>)
        requires
            Self::capabilities_spec().delitem,
        ensures
            (*final(self), r) == old(self).delitem_spec(key),
    ;

    closed spec fn iter_spec(&self) -> Result<Self::Iter, PyErr> {
        arbitrary()
    }

    fn __iter__(&self) -> (r: Result<Self::Iter, PyErr>)
        requires
            Self::capabilities_spec().iter,
        ensures
            r == self.iter_spec(),
    ;

    closed spec fn contains_spec(&self, value: Self::Value) -> Result<bool, PyErr> {
        arbitrary()
    }

    fn __contains__(&self, value: Self::Value) -> (r: Result<bool, PyErr>)
        requires
            Self::capabilities_spec().contains,
        ensures
            r == self.contains_spec(value),
    ;

    closed spec fn reversed_spec(&self) -> Result<Self::Iter, PyErr> {
        arbitrary()
    }

    fn __reversed__(&self) -> (r: Result<Self::Iter, PyErr>)
        requires
            Self::capabilities_spec().reversed,
        ensures
            r == self.reversed_spec(),
    ;
}

/// What the length slot reports for what `__len__` returned: a negative count
/// is an invariant violation, an error passes through.
pub open spec fn len_outcome(u: Result<isize, PyErr>) -> Result<usize, (ErrorKind, Seq<char>)> {
    match u {
        Ok(n) => if n >= 0 {
            Ok(n as usize)
        } else {
            Err((ErrorKind::InvariantViolation, negative_length_message()))
        },
        Err(e) => Err(e@),
    }
}

/// Converts what a host's `__len__` returned into the count the runtime
/// receives.
pub fn len_result(u: Result<isize, PyErr>) -> (r: Result<usize, PyErr>)
    ensures
        result_view(r) == len_outcome(u),
        u matches Err(e) ==> r == Err::<usize, PyErr>(e),
{
    match u {
        Ok(n) => if n >= 0 {
            Ok(n as usize)
        } else {
            Err(PyErr::negative_length())
        },
        Err(e) => Err(e),
    }
}

/// The length slot: calls `__len__` and reports a non-negative count.
pub fn mp_length<T: PyMappingProtocol>(slf: &T) -> (r: Result<usize, PyErr>)
    requires
        T::capabilities_spec().len,
    ensures
        result_view(r) == len_outcome(slf.len_spec()),
        slf.len_spec() matches Err(e) ==> r == Err::<usize, PyErr>(e),
{
    len_result(slf.__len__())
}

/// What the read slot returns for `key`.
pub open spec fn subscript_outcome<T: PyMappingProtocol>(slf: T, key: PyObject) -> Result<
    PyObject,
    (ErrorKind, Seq<char>),
> {
    match <T::Key as FromPyObject>::extract_spec(key) {
        None => Err((ErrorKind::KeyConversion, key_conversion_message())),
        Some(k) => match slf.getitem_spec(k) {
            Ok(item) => Ok(item.to_object_spec()),
            Err(e) => Err(e@),
        },
    }
}

/// The read slot: converts the key, calls `__getitem__` and converts its
/// result back.
pub fn mp_subscript<T: PyMappingProtocol>(slf: &T, key: &PyObject) -> (r: Result<PyObject, PyErr>)
    requires
        T::capabilities_spec().getitem,
    ensures
        result_view(r) == subscript_outcome(*slf, *key),
        (match <T::Key as FromPyObject>::extract_spec(*key) {
            Some(k) => slf.getitem_spec(k) matches Err(e) ==> r == Err::<PyObject, PyErr>(e),
            None => true,
        }),
{
    let k = match <T::Key as FromPyObject>::extract(key) {
        Some(k) => k,
        None => {
            return Err(PyErr::key_conversion());
        },
    };
    match slf.__getitem__(k) {
        Ok(item) => Ok(item.to_object()),
        Err(e) => Err(e),
    }
}

/// The operation that a call of the assignment slot resolves to.
pub enum Assignment<K, V> {
    /// Call `setitem` with this key and value.
    Store(K, V),
    /// Call `delitem` with this key.
    Remove(K),
}

/// Where a call of the assignment slot goes: the key is converted first, then
/// a present value; only then does the mode decide between the operation and
/// a refusal that names the host type.
pub open spec fn assignment_route<T: PyMappingProtocol>(
    mode: AssignMode,
    key: PyObject,
    value: Option<&PyObject>,
) -> Result<Assignment<T::Key, T::Value>, (ErrorKind, Seq<char>)> {
    match <T::Key as FromPyObject>::extract_spec(key) {
        None => Err((ErrorKind::KeyConversion, key_conversion_message())),
        Some(k) => match value {
            Some(v) => match <T::Value as FromPyObject>::extract_spec(*v) {
                None => Err((ErrorKind::ValueConversion, value_conversion_message())),
                Some(v) => if mode.assigns() {
                    Ok(Assignment::Store(k, v))
                } else {
                    Err(
                        (
                            ErrorKind::OperationNotSupported,
                            assignment_not_supported_message(T::host_name_spec()),
                        ),
                    )
                },
            },
            None => if mode.deletes() {
                Ok(Assignment::Remove(k))
            } else {
                Err(
                    (
                        ErrorKind::OperationNotSupported,
                        deletion_not_supported_message(T::host_name_spec()),
                    ),
                )
            },
        },
    }
}

/// Decides, for one call of the assignment slot, which operation runs, or
/// the error that the call returns.
pub fn resolve_assignment<T: PyMappingProtocol>(
    mode: AssignMode,
    key: &PyObject,
    value: Option<&PyObject>,
) -> (r: Result<Assignment<T::Key, T::Value>, PyErr>)
    ensures
        result_view(r) == assignment_route::<T>(mode, *key, value),
{
    let k = match <T::Key as FromPyObject>::extract(key) {
        Some(k) => k,
        None => {
            return Err(PyErr::key_conversion());
        },
    };
    match value {
        Some(v) => {
            let v = match <T::Value as FromPyObject>::extract(v) {
                Some(v) => v,
                None => {
                    return Err(PyErr::value_conversion());
                },
            };
            if mode != AssignMode::DelOnly {
                Ok(Assignment::Store(k, v))
            } else {
                Err(PyErr::assignment_not_supported(T::host_name()))
            }
        },
        None => {
            if mode != AssignMode::SetOnly {
                Ok(Assignment::Remove(k))
            } else {
                Err(PyErr::deletion_not_supported(T::host_name()))
            }
        },
    }
}

/// The assignment mode of a host type that implements `setitem` or `delitem`.
pub open spec fn assign_mode_of<T: PyMappingProtocol>() -> AssignMode {
    T::capabilities_spec().assign_mode_spec()->Some_0
}

/// The merged assignment slot: a present `value` assigns `key`, an absent one
/// deletes it, each where the host type implements that operation.
///
/// Where the call is refused the object is left as it was; otherwise the
/// object and the result are those of exactly the one operation resolved.
pub fn mp_ass_subscript<T: PyMappingProtocol>(
    slf: &mut T,
    key: &PyObject,
    value: Option<&PyObject>,
) -> (r: Result<(), PyErr>)
    requires
        T::capabilities_spec().setitem || T::capabilities_spec().delitem,
    ensures
        match assignment_route::<T>(assign_mode_of::<T>(), *key, value) {
            Err(ev) => result_view(r) == Err::<(), (ErrorKind, Seq<char>)>(ev) && *final(slf)
                == *old(slf),
            Ok(Assignment::Store(k, v)) => (*final(slf), r) == old(slf).setitem_spec(k, v),
            Ok(Assignment::Remove(k)) => (*final(slf), r) == old(slf).delitem_spec(k),
        },
{
    let mode = T::capabilities().assign_mode().unwrap();
    match resolve_assignment::<T>(mode, key, value) {
        Err(e) => Err(e),
        Ok(Assignment::Store(k, v)) => slf.__setitem__(k, v),
        Ok(Assignment::Remove(k)) => slf.__delitem__(k),
    }
}

/// What the `contains` method returns for `value`.
pub open spec fn contains_outcome<T: PyMappingProtocol>(slf: T, value: PyObject) -> Result<
    PyObject,
    (ErrorKind, Seq<char>),
> {
    match <T::Value as FromPyObject>::extract_spec(value) {
        None => Err((ErrorKind::ValueConversion, value_conversion_message())),
        Some(v) => match slf.contains_spec(v) {
            Ok(b) => Ok(PyObject::Bool(b)),
            Err(e) => Err(e@),
        },
    }
}

/// The `contains` method: converts the value, calls `__contains__` and
/// returns its answer as a runtime boolean.
pub fn call_contains<T: PyMappingProtocol>(slf: &T, value: &PyObject) -> (r: Result<PyObject, PyErr>)
    requires
        T::capabilities_spec().contains,
    ensures
        result_view(r) == contains_outcome(*slf, *value),
        (match <T::Value as FromPyObject>::extract_spec(*value) {
            Some(v) => slf.contains_spec(v) matches Err(e) ==> r == Err::<PyObject, PyErr>(e),
            None => true,
        }),
{
    let v = match <T::Value as FromPyObject>::extract(value) {
        Some(v) => v,
        None => {
            return Err(PyErr::value_conversion());
        },
    };
    match slf.__contains__(v) {
        Ok(b) => Ok(PyObject::Bool(b)),
        Err(e) => Err(e),
    }
}

/// A host result converted for the runtime; a host error passes unchanged.
pub open spec fn converted<A: ToPyObject>(u: Result<A, PyErr>) -> Result<PyObject, PyErr> {
    match u {
        Ok(a) => Ok(a.to_object_spec()),
        Err(e) => Err(e),
    }
}

/// The `iter` method: calls `__iter__` and converts what it returns.
pub fn call_iter<T: PyMappingProtocol>(slf: &T) -> (r: Result<PyObject, PyErr>)
    requires
        T::capabilities_spec().iter,
    ensures
        r == converted(slf.iter_spec()),
{
    match slf.__iter__() {
        Ok(it) => Ok(it.to_object()),
        Err(e) => Err(e),
    }
}

/// The `reversed` method: calls `__reversed__` and converts what it returns.
pub fn call_reversed<T: PyMappingProtocol>(slf: &T) -> (r: Result<PyObject, PyErr>)
    requires
        T::capabilities_spec().reversed,
    ensures
        r == converted(slf.reversed_spec()),
{
    match slf.__reversed__() {
        Ok(it) => Ok(it.to_object()),
        Err(e) => Err(e),
    }
}

/// A negative count from `__len__` is reported as an invariant violation,
/// never handed on as a count.
pub proof fn lemma_negative_length_rejected(n: isize)
    requires
        n < 0,
    ensures
        len_outcome(Ok(n)) == Err::<usize, (ErrorKind, Seq<char>)>(
            (ErrorKind::InvariantViolation, negative_length_message()),
        ),
{
}

/// A key that does not convert is reported as such, whatever the mode and
/// whether or not a value is present: the conversion error comes before any
/// refusal for a missing operation.
pub proof fn lemma_key_conversion_first<T: PyMappingProtocol>(
    mode: AssignMode,
    key: PyObject,
    value: Option<&PyObject>,
)
    requires
        <T::Key as FromPyObject>::extract_spec(key) is None,
    ensures
        assignment_route::<T>(mode, key, value) == Err::<
            Assignment<T::Key, T::Value>,
            (ErrorKind, Seq<char>),
        >((ErrorKind::KeyConversion, key_conversion_message())),
{
}

/// For a type with `setitem` alone, a present value goes to `setitem` with
/// the converted key and value, and an absent one is refused with a message
/// that ends in the type's name.
pub proof fn lemma_set_only_routing<T: PyMappingProtocol>(key: PyObject, value: PyObject)
    requires
        T::capabilities_spec().setitem,
        !T::capabilities_spec().delitem,
        <T::Key as FromPyObject>::extract_spec(key) is Some,
        <T::Value as FromPyObject>::extract_spec(value) is Some,
    ensures
        assignment_route::<T>(assign_mode_of::<T>(), key, Some(&value)) == Ok::<
            Assignment<T::Key, T::Value>,
            (ErrorKind, Seq<char>),
        >(
            Assignment::Store(
                <T::Key as FromPyObject>::extract_spec(key)->Some_0,
                <T::Value as FromPyObject>::extract_spec(value)->Some_0,
            ),
        ),
        assignment_route::<T>(assign_mode_of::<T>(), key, None) == Err::<
            Assignment<T::Key, T::Value>,
            (ErrorKind, Seq<char>),
        >(
            (
                ErrorKind::OperationNotSupported,
                deletion_not_supported_message(T::host_name_spec()),
            ),
        ),
        deletion_not_supported_message(T::host_name_spec()).subrange(
            deletion_not_supported_message(T::host_name_spec()).len()
                - T::host_name_spec().len(),
            deletion_not_supported_message(T::host_name_spec()).len() as int,
        ) == T::host_name_spec(),
{
    let m = deletion_not_supported_message(T::host_name_spec());
    assert(m.subrange(m.len() - T::host_name_spec().len(), m.len() as int)
        =~= T::host_name_spec());
}

/// For a type with `delitem` alone, an absent value goes to `delitem` with
/// the converted key, and a present one is refused with a message that ends
/// in the type's name.
pub proof fn lemma_del_only_routing<T: PyMappingProtocol>(key: PyObject, value: PyObject)
    requires
        !T::capabilities_spec().setitem,
        T::capabilities_spec().delitem,
        <T::Key as FromPyObject>::extract_spec(key) is Some,
        <T::Value as FromPyObject>::extract_spec(value) is Some,
    ensures
        assignment_route::<T>(assign_mode_of::<T>(), key, None) == Ok::<
            Assignment<T::Key, T::Value>,
            (ErrorKind, Seq<char>),
        >(Assignment::Remove(<T::Key as FromPyObject>::extract_spec(key)->Some_0)),
        assignment_route::<T>(assign_mode_of::<T>(), key, Some(&value)) == Err::<
            Assignment<T::Key, T::Value>,
            (ErrorKind, Seq<char>),
        >(
            (
                ErrorKind::OperationNotSupported,
                assignment_not_supported_message(T::host_name_spec()),
            ),
        ),
        assignment_not_supported_message(T::host_name_spec()).subrange(
            assignment_not_supported_message(T::host_name_spec()).len()
                - T::host_name_spec().len(),
            assignment_not_supported_message(T::host_name_spec()).len() as int,
        ) == T::host_name_spec(),
{
    let m = assignment_not_supported_message(T::host_name_spec());
    assert(m.subrange(m.len() - T::host_name_spec().len(), m.len() as int)
        =~= T::host_name_spec());
}

/// For a type with both operations, a present value goes to `setitem` and
/// an absent one to `delitem`, never the other way.
pub proof fn lemma_set_and_del_routing<T: PyMappingProtocol>(key: PyObject, value: PyObject)
    requires
        T::capabilities_spec().setitem,
        T::capabilities_spec().delitem,
        <T::Key as FromPyObject>::extract_spec(key) is Some,
        <T::Value as FromPyObject>::extract_spec(value) is Some,
    ensures
        assignment_route::<T>(assign_mode_of::<T>(), key, Some(&value)) == Ok::<
            Assignment<T::Key, T::Value>,
            (ErrorKind, Seq<char>),
        >(
            Assignment::Store(
                <T::Key as FromPyObject>::extract_spec(key)->Some_0,
                <T::Value as FromPyObject>::extract_spec(value)->Some_0,
            ),
        ),
        assignment_route::<T>(assign_mode_of::<T>(), key, None) == Ok::<
            Assignment<T::Key, T::Value>,
            (ErrorKind, Seq<char>),
        >(Assignment::Remove(<T::Key as FromPyObject>::extract_spec(key)->Some_0)),
{
}

} // verus!
