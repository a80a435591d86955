//! Which mapping operations a host type implements, and how the write and
//! delete operations share the runtime's single assignment slot.

use vstd::prelude::*;

verus! {

/// The seven optional operations of the mapping protocol.
#[derive(Debug, Clone, Copy, PartialEq, Eq, Structural)]
pub enum Operation {
    Len,
    GetItem,
    SetItem,
    DelItem,
    Iter,
    Contains,
    Reversed,
}

/// One flag per operation: set exactly where the host type implements it.
#[derive(Debug, Clone, Copy, PartialEq, Eq, Structural)]
pub struct Capabilities {
    pub len: bool,
    pub getitem: bool,
    pub setitem: bool,
    pub delitem: bool,
    pub iter: bool,
    pub contains: bool,
    pub reversed: bool,
}

/// What the merged assignment slot does, by which of `setitem` and `delitem`
/// the host type implements.
#[derive(Debug, Clone, Copy, PartialEq, Eq, Structural)]
pub enum AssignMode {
    /// Only `setitem`: a present value assigns, an absent one is refused.
    SetOnly,
    /// Only `delitem`: an absent value deletes, a present one is refused.
    DelOnly,
    /// Both: a present value assigns, an absent one deletes.
    SetAndDel,
}

impl AssignMode {
    /// Whether a call with a present value reaches `setitem`.
    pub open spec fn assigns(self) -> bool {
        self != AssignMode::DelOnly
    }

    /// Whether a call with an absent value reaches `delitem`.
    pub open spec fn deletes(self) -> bool {
        self != AssignMode::SetOnly
    }
}

impl Capabilities {
    pub open spec fn supports_spec(self, op: Operation) -> bool {
        match op {
            Operation::Len => self.len,
            Operation::GetItem => self.getitem,
            Operation::SetItem => self.setitem,
            Operation::DelItem => self.delitem,
            Operation::Iter => self.iter,
            Operation::Contains => self.contains,
            Operation::Reversed => self.reversed,
        }
    }

    /// The merge of `setitem` and `delitem` onto one slot; `None` where the
    /// type implements neither.
    pub open spec fn assign_mode_spec(self) -> Option<AssignMode> {
        if self.setitem && self.delitem {
            Some(AssignMode::SetAndDel)
        } else if self.setitem {
            Some(AssignMode::SetOnly)
        } else if self.delitem {
            Some(AssignMode::DelOnly)
        } else {
            None
        }
    }

    /// Whether the type implements `op`.
    pub fn supports(&self, op: Operation) -> (r: bool)
        ensures
            r == self.supports_spec(op),
    {
        match op {
            Operation::Len => self.len,
            Operation::GetItem => self.getitem,
            Operation::SetItem => self.setitem,
            Operation::DelItem => self.delitem,
            Operation::Iter => self.iter,
            Operation::Contains => self.contains,
            Operation::Reversed => self.reversed,
        }
    }

    /// Resolves the write/delete pair onto the single assignment slot.
    pub fn assign_mode(&self) -> (r: Option<AssignMode>)
        ensures
            r == self.assign_mode_spec(),
            r is Some <==> (self.setitem || self.delitem),
            r matches Some(m) ==> (m.assigns() == self.setitem && m.deletes() == self.delitem),
    {
        if self.setitem && self.delitem {
            Some(AssignMode::SetAndDel)
        } else if self.setitem {
            Some(AssignMode::SetOnly)
        } else if self.delitem {
            Some(AssignMode::DelOnly)
        } else {
            None
        }
    }

    /// A declaration with no operation.
    pub fn none() -> (r: Capabilities)
        ensures
            forall|op: Operation| !r.supports_spec(op),
    {
        Capabilities {
            len: false,
            getitem: false,
            setitem: false,
            delitem: false,
            iter: false,
            contains: false,
            reversed: false,
        }
    }

    /// This declaration with `op` added.
    pub fn with(self, op: Operation) -> (r: Capabilities)
        ensures
            r.supports_spec(op),
            forall|o: Operation| o != op ==> r.supports_spec(o) == self.supports_spec(o),
    {
        let mut r = self;
        match op {
            Operation::Len => r.len = true,
            Operation::GetItem => r.getitem = true,
            Operation::SetItem => r.setitem = true,
            Operation::DelItem => r.delitem = true,
            Operation::Iter => r.iter = true,
            Operation::Contains => r.contains = true,
            Operation::Reversed => r.reversed = true,
        }
        r
    }
}

} // verus!
