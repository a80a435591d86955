//! Mapping-protocol dispatch for host types of an object runtime.
//!
//! A host type declares which of the seven mapping operations it implements;
//! from that declaration the crate builds the runtime's dispatch table and
//! provides the entry points that marshal arguments, call the operation and
//! marshal its result back.

pub mod object;
pub mod err;
pub mod capability;
pub mod mapping;
pub mod table;
