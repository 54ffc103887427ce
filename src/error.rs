//! Why a schema-building call failed.

use vstd::prelude::*;

verus! {

/// The failures of the construction, assembly and extraction operations.
#[derive(Debug, Clone, Copy, PartialEq, Eq, Structural)]
pub enum SchemaError {
    /// The handle was never issued by this session, or its element was already consumed.
    UnknownHandle(usize),
    /// The handle is live but holds the wrong kind of element for where it was used.
    WrongKind(usize),
    /// The precision and scale do not form a legal decimal type.
    InvalidDecimal { precision: u8, scale: i8 },
    /// A bare primitive type was requested with a code outside `0..=11`.
    InvalidPrimitiveCode(u8),
    /// The session's schema was already extracted.
    SessionClosed,
}

} // verus!
