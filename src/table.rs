//! The per-type dispatch table: the three mapping slots and the named
//! methods, each present exactly where the host type implements it.

use vstd::prelude::*;

use crate::capability::{AssignMode, Capabilities};
use crate::mapping::PyMappingProtocol;

verus! {

/// The runtime's mapping slots for one host type.
#[derive(Debug, Clone, Copy, PartialEq, Eq, Structural)]
pub struct PyMappingMethods {
    /// Whether the length slot (`mp_length`) is installed.
    pub mp_length: bool,
    /// Whether the read slot (`mp_subscript`) is installed.
    pub mp_subscript: bool,
    /// The merged assignment slot (`mp_ass_subscript`), with its mode; absent
    /// where the type implements neither `setitem` nor `delitem`.
    pub mp_ass_subscript: Option<AssignMode>,
}

/// A method that the runtime looks up by name.
#[derive(Debug, Clone, Copy, PartialEq, Eq, Structural)]
pub enum MethodKind {
    /// Served by `call_iter`.
    Iter,
    /// Served by `call_contains`.
    Contains,
    /// Served by `call_reversed`.
    Reversed,
}

/// A named method entry of the type's method list.
#[derive(Debug, Clone, Copy, PartialEq, Eq)]
pub struct PyMethodDef {
    pub ml_name: &'static str,
    pub kind: MethodKind,
}

impl MethodKind {
    pub open spec fn name_spec(self) -> Seq<char> {
        match self {
            MethodKind::Iter => "__iter__"@,
            MethodKind::Contains => "__contains__"@,
            MethodKind::Reversed => "__reversed__"@,
        }
    }

    /// The name under which the runtime finds the method.
    pub fn name(&self) -> (r: &'static str)
        ensures
            r@ == self.name_spec(),
    {
        match self {
            MethodKind::Iter => "__iter__",
            MethodKind::Contains => "__contains__",
            MethodKind::Reversed => "__reversed__",
        }
    }
}

/// The slots installed for `caps`.
pub open spec fn mapping_methods_spec(caps: Capabilities) -> PyMappingMethods {
    PyMappingMethods {
        mp_length: caps.len,
        mp_subscript: caps.getitem,
        mp_ass_subscript: caps.assign_mode_spec(),
    }
}

/// The named methods listed for `caps`, in the order iter, contains,
/// reversed.
pub open spec fn method_kinds_spec(caps: Capabilities) -> Seq<MethodKind> {
    (if caps.iter { seq![MethodKind::Iter] } else { Seq::empty() }) + (if caps.contains {
        seq![MethodKind::Contains]
    } else {
        Seq::empty()
    }) + (if caps.reversed { seq![MethodKind::Reversed] } else { Seq::empty() })
}

/// Builds the slot table from a capability declaration.
pub fn mapping_methods(caps: Capabilities) -> (r: PyMappingMethods)
    ensures
        r == mapping_methods_spec(caps),
{
    PyMappingMethods {
        mp_length: caps.len,
        mp_subscript: caps.getitem,
        mp_ass_subscript: caps.assign_mode(),
    }
}

/// The method entry for `kind`.
pub fn method_def(kind: MethodKind) -> (r: PyMethodDef)
    ensures
        r.kind == kind,
        r.ml_name@ == kind.name_spec(),
{
    PyMethodDef { ml_name: kind.name(), kind }
}

/// The entry for `kind` where `present` holds, else none.
pub fn optional_method_def(present: bool, kind: MethodKind) -> (r: Option<PyMethodDef>)
    ensures
        r is Some <==> present,
        r matches Some(d) ==> d.kind == kind && d.ml_name@ == kind.name_spec(),
{
    if present {
        Some(method_def(kind))
    } else {
        None
    }
}

/// Builds the named-method list from a capability declaration.
pub fn method_defs(caps: Capabilities) -> (r: Vec<PyMethodDef>)
    ensures
        r@.len() == method_kinds_spec(caps).len(),
        forall|i: int|
            0 <= i < r@.len() ==> r@[i].kind == method_kinds_spec(caps)[i] && r@[i].ml_name@
                == r@[i].kind.name_spec(),
{
    let mut methods: Vec<PyMethodDef> = Vec::new();
    let ghost first: Seq<MethodKind> = if caps.iter { seq![MethodKind::Iter] } else { Seq::empty() };
    let ghost second: Seq<MethodKind> = if caps.contains {
        seq![MethodKind::Contains]
    } else {
        Seq::empty()
    };
    let ghost third: Seq<MethodKind> = if caps.reversed {
        seq![MethodKind::Reversed]
    } else {
        Seq::empty()
    };
    if let Some(def) = optional_method_def(caps.iter, MethodKind::Iter) {
        methods.push(def);
    }
    assert(methods@.len() == first.len());
    assert(forall|i: int| 0 <= i < methods@.len() ==> methods@[i].kind == first[i]);
    if let Some(def) = optional_method_def(caps.contains, MethodKind::Contains) {
        methods.push(def);
    }
    assert(methods@.len() == (first + second).len());
    assert(forall|i: int| 0 <= i < methods@.len() ==> methods@[i].kind == (first + second)[i]);
    if let Some(def) = optional_method_def(caps.reversed, MethodKind::Reversed) {
        methods.push(def);
    }
    assert(method_kinds_spec(caps) == first + second + third);
    methods
}

/// Table construction for a host type of the mapping protocol.
pub trait PyMappingProtocolImpl: PyMappingProtocol {
    /// The type's mapping slots.
    fn tp_as_mapping() -> (r: Option<PyMappingMethods>)
        ensures
            r == Some(mapping_methods_spec(Self::capabilities_spec())),
    ;

    /// The type's named mapping methods.
    fn methods() -> (r: Vec<PyMethodDef>)
        ensures
            r@.len() == method_kinds_spec(Self::capabilities_spec()).len(),
            forall|i: int|
                0 <= i < r@.len() ==> r@[i].kind == method_kinds_spec(Self::capabilities_spec())[i]
                    && r@[i].ml_name@ == r@[i].kind.name_spec(),
    ;
}

impl<T: PyMappingProtocol> PyMappingProtocolImpl for T {
    fn tp_as_mapping() -> (r: Option<PyMappingMethods>) {
        Some(mapping_methods(T::capabilities()))
    }

    fn methods() -> (r: Vec<PyMethodDef>) {
        method_defs(T::capabilities())
    }
}

/// A type that implements neither `setitem` nor `delitem` gets no
/// assignment slot.
pub proof fn lemma_no_assignment_slot(caps: Capabilities)
    requires
        !caps.setitem,
        !caps.delitem,
    ensures
        mapping_methods_spec(caps).mp_ass_subscript is None,
{
}

} // verus!
