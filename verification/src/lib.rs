//! Kernel type compatibility and introspection layer.
//!
//! A user-space program that must run against an arbitrary kernel version can
//! use this crate to discover, at runtime, the numeric values of
//! kernel-defined symbolic constants and the field layout of kernel-defined
//! structures, and to neutralize optional configuration fields that the
//! running kernel does not support before handing the configuration to the
//! kernel-loading subsystem.
//!
//! The crate works on a plain-value copy of the kernel's type metadata: the
//! caller extracts the raw type records and the name table once, and every
//! query after that is bounds-checked, verified code.

use vstd::prelude::*;

pub mod database;
pub mod names;
pub mod protocol;
pub mod record;
pub mod resolve;

verus! {

/// Failures of the compatibility layer.
#[derive(Clone, Copy, Debug, PartialEq, Eq, Structural)]
pub enum CompatError {
    /// A named type, enumerator, or structure is absent. Recoverable: the
    /// caller supplies a default or propagates.
    NotFound,
    /// A name-table lookup failed, so the type database itself is unreliable.
    MalformedName,
    /// The external kernel-loading subsystem failed, or a load was attempted
    /// out of order.
    LoadError,
    /// The external kernel-attach subsystem failed, or an attach was attempted
    /// out of order.
    AttachError,
}

} // verus!
