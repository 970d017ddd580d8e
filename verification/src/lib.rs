//! Entity metadata and dynamic parameter binding for a relational mapping
//! core that targets two wire protocols (a Postgres-style one and a
//! SQL-Server-style one).
//!
//! The crate offers:
//! - a closed, type-tagged value envelope for every supported primitive
//!   ([`value::Value`]), with checked wrapping and unwrapping;
//! - conversion of envelopes into the wire representation of the active
//!   backend ([`backend`]);
//! - per-entity field metadata and a process-scoped descriptor registry
//!   deriving table names by a snake-case transform ([`registry`]);
//! - parameterized CRUD statement building with backend-specific
//!   placeholder syntax ([`sql`]);
//! - reconstruction of typed entities from result rows ([`row`]).

use vstd::prelude::*;

pub mod backend;
pub mod fields;
pub mod sql;
pub mod registry;
pub mod row;
pub mod text;
pub mod value;

use crate::value::ValueKind;

verus! {

/// Every recoverable failure this crate reports.
///
/// All of these are surfaced to the caller as results; none is treated as
/// fatal, and no verified function of this crate panics.
#[derive(Clone, Debug, PartialEq)]
pub enum CanyonError {
    /// The requested type does not match the active variant of a value
    /// envelope; carries the requested kind and the envelope's actual kind.
    TypeMismatch { expected: ValueKind, actual: ValueKind },
    /// A registry lookup missed: no entity is registered under the name.
    UnknownEntity,
    /// A strict-mode registration found the entity name already registered.
    DuplicateRegistration,
    /// An IN-clause filter was asked for with no values; there is no valid
    /// SQL for an empty IN list.
    EmptyInClause,
    /// A result row has no column under the declared field name.
    MissingColumn(String),
    /// A result row has the column, but its cell cannot be converted to the
    /// field's declared kind.
    ColumnTypeMismatch { column: String, expected: ValueKind, actual: ValueKind },
    /// An opaque failure passed through from the external transport.
    Transport(String),
}

} // verus!
