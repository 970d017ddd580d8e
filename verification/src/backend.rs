//! Conversion of value envelopes into the wire representation of the
//! active backend, and the reverse conversion used when result rows come
//! back. Both directions are exhaustive over the envelope's variant set,
//! and every integer and text value is carried losslessly.

use vstd::prelude::*;

use crate::value::{Date, DateTime, Time, Value, ValueKind};

verus! {

/// The marker selecting which wire protocol's placeholder syntax and value
/// encoding to use.
#[derive(Clone, Copy, Debug, PartialEq, Eq, Structural)]
pub enum Backend {
    /// A Postgres-style protocol: `$1, $2, ...` placeholders, signed
    /// integer wire types only.
    Postgres,
    /// A SQL-Server-style protocol: `@p1, @p2, ...` placeholders, with an
    /// unsigned one-byte integer wire type.
    SqlServer,
}

/// One value in the form a backend puts on the wire.
#[derive(Debug, PartialEq)]
pub enum BackendValue {
    /// An unsigned one-byte integer column.
    TinyInt(u8),
    /// A signed two-byte integer column.
    SmallInt(i16),
    /// A signed four-byte integer column.
    Int(i32),
    /// A signed eight-byte integer column.
    BigInt(i64),
    /// An unsigned eight-byte integer column.
    UnsignedBigInt(u64),
    /// A UTF-8 text column, preserved byte for byte.
    Varchar(String),
    /// A calendar date column.
    Date(Date),
    /// A date-time column.
    DateTime(DateTime),
    /// A time-of-day column.
    Time(Time),
}

impl Clone for BackendValue {
    /// Cloning a wire value preserves it exactly, text included.
    fn clone(&self) -> (r: BackendValue)
        ensures
            r == *self,
    {
        match self {
            BackendValue::TinyInt(x) => BackendValue::TinyInt(*x),
            BackendValue::SmallInt(x) => BackendValue::SmallInt(*x),
            BackendValue::Int(x) => BackendValue::Int(*x),
            BackendValue::BigInt(x) => BackendValue::BigInt(*x),
            BackendValue::UnsignedBigInt(x) => BackendValue::UnsignedBigInt(*x),
            BackendValue::Varchar(s) => BackendValue::Varchar(s.clone()),
            BackendValue::Date(d) => BackendValue::Date(*d),
            BackendValue::DateTime(dt) => BackendValue::DateTime(*dt),
            BackendValue::Time(t) => BackendValue::Time(*t),
        }
    }
}

/// The kind tag a wire value naturally carries, used to report what a
/// mismatched cell actually held.
pub open spec fn backend_kind(bv: BackendValue) -> ValueKind {
    match bv {
        BackendValue::TinyInt(_) => ValueKind::UInt8,
        BackendValue::SmallInt(_) => ValueKind::Int16,
        BackendValue::Int(_) => ValueKind::Int32,
        BackendValue::BigInt(_) => ValueKind::Int64,
        BackendValue::UnsignedBigInt(_) => ValueKind::UInt64,
        BackendValue::Varchar(_) => ValueKind::Text,
        BackendValue::Date(_) => ValueKind::Date,
        BackendValue::DateTime(_) => ValueKind::DateTime,
        BackendValue::Time(_) => ValueKind::Time,
    }
}

/// Reports the kind tag a wire value naturally carries.
pub fn backend_kind_of(bv: &BackendValue) -> (k: ValueKind)
    ensures
        k == backend_kind(*bv),
{
    match bv {
        BackendValue::TinyInt(_) => ValueKind::UInt8,
        BackendValue::SmallInt(_) => ValueKind::Int16,
        BackendValue::Int(_) => ValueKind::Int32,
        BackendValue::BigInt(_) => ValueKind::Int64,
        BackendValue::UnsignedBigInt(_) => ValueKind::UInt64,
        BackendValue::Varchar(_) => ValueKind::Text,
        BackendValue::Date(_) => ValueKind::Date,
        BackendValue::DateTime(_) => ValueKind::DateTime,
        BackendValue::Time(_) => ValueKind::Time,
    }
}

/// The exact wire form each envelope variant takes on each backend.
///
/// Integers widen to the smallest wire integer that holds every value of
/// their type; the Postgres-style protocol has no unsigned one-byte wire
/// type, so an unsigned byte widens to a two-byte integer there, while the
/// SQL-Server-style protocol carries it as a tiny integer.
pub open spec fn spec_to_backend(v: Value, backend: Backend) -> BackendValue {
    match v {
        Value::I8(x) => BackendValue::SmallInt(x as i16),
        Value::U8(x) => match backend {
            Backend::Postgres => BackendValue::SmallInt(x as i16),
            Backend::SqlServer => BackendValue::TinyInt(x),
        },
        Value::I16(x) => BackendValue::SmallInt(x),
        Value::U16(x) => BackendValue::Int(x as i32),
        Value::I32(x) => BackendValue::Int(x),
        Value::U32(x) => BackendValue::BigInt(x as i64),
        Value::I64(x) => BackendValue::BigInt(x),
        Value::U64(x) => BackendValue::UnsignedBigInt(x),
        Value::Text(s) => BackendValue::Varchar(s),
        Value::Date(d) => BackendValue::Date(d),
        Value::DateTime(dt) => BackendValue::DateTime(dt),
        Value::Time(t) => BackendValue::Time(t),
    }
}

/// Translates one envelope into the wire representation the target
/// backend expects, exactly as [`spec_to_backend`] states.
pub fn to_backend_representation(v: Value, backend: Backend) -> (r: BackendValue)
    ensures
        r == spec_to_backend(v, backend),
{
    match v {
        Value::I8(x) => BackendValue::SmallInt(x as i16),
        Value::U8(x) => match backend {
            Backend::Postgres => BackendValue::SmallInt(x as i16),
            Backend::SqlServer => BackendValue::TinyInt(x),
        },
        Value::I16(x) => BackendValue::SmallInt(x),
        Value::U16(x) => BackendValue::Int(x as i32),
        Value::I32(x) => BackendValue::Int(x),
        Value::U32(x) => BackendValue::BigInt(x as i64),
        Value::I64(x) => BackendValue::BigInt(x),
        Value::U64(x) => BackendValue::UnsignedBigInt(x),
        Value::Text(s) => BackendValue::Varchar(s),
        Value::Date(d) => BackendValue::Date(d),
        Value::DateTime(dt) => BackendValue::DateTime(dt),
        Value::Time(t) => BackendValue::Time(t),
    }
}

/// The exact result of reading a wire value back at a declared kind:
/// `Some` exactly when the wire form is one that [`spec_to_backend`]
/// produces for that kind (on either backend) and the value fits the
/// kind's range.
pub open spec fn spec_from_backend(bv: BackendValue, kind: ValueKind) -> Option<Value> {
    match (bv, kind) {
        (BackendValue::SmallInt(x), ValueKind::Int8) => if -128 <= x <= 127 {
            Some(Value::I8(x as i8))
        } else {
            None
        },
        (BackendValue::SmallInt(x), ValueKind::UInt8) => if 0 <= x <= 255 {
            Some(Value::U8(x as u8))
        } else {
            None
        },
        (BackendValue::TinyInt(x), ValueKind::UInt8) => Some(Value::U8(x)),
        (BackendValue::SmallInt(x), ValueKind::Int16) => Some(Value::I16(x)),
        (BackendValue::Int(x), ValueKind::UInt16) => if 0 <= x <= 65535 {
            Some(Value::U16(x as u16))
        } else {
            None
        },
        (BackendValue::Int(x), ValueKind::Int32) => Some(Value::I32(x)),
        (BackendValue::BigInt(x), ValueKind::UInt32) => if 0 <= x <= 0xffff_ffff {
            Some(Value::U32(x as u32))
        } else {
            None
        },
        (BackendValue::BigInt(x), ValueKind::Int64) => Some(Value::I64(x)),
        (BackendValue::UnsignedBigInt(x), ValueKind::UInt64) => Some(Value::U64(x)),
        (BackendValue::Varchar(s), ValueKind::Text) => Some(Value::Text(s)),
        (BackendValue::Date(d), ValueKind::Date) => Some(Value::Date(d)),
        (BackendValue::DateTime(dt), ValueKind::DateTime) => Some(Value::DateTime(dt)),
        (BackendValue::Time(t), ValueKind::Time) => Some(Value::Time(t)),
        _ => None,
    }
}

/// Reads a wire value back at a declared kind, exactly as
/// [`spec_from_backend`] states.
pub fn from_backend_representation(bv: &BackendValue, kind: ValueKind) -> (r: Option<Value>)
    ensures
        r == spec_from_backend(*bv, kind),
{
    match (bv, kind) {
        (BackendValue::SmallInt(x), ValueKind::Int8) => if -128 <= *x && *x <= 127 {
            Some(Value::I8(*x as i8))
        } else {
            None
        },
        (BackendValue::SmallInt(x), ValueKind::UInt8) => if 0 <= *x && *x <= 255 {
            Some(Value::U8(*x as u8))
        } else {
            None
        },
        (BackendValue::TinyInt(x), ValueKind::UInt8) => Some(Value::U8(*x)),
        (BackendValue::SmallInt(x), ValueKind::Int16) => Some(Value::I16(*x)),
        (BackendValue::Int(x), ValueKind::UInt16) => if 0 <= *x && *x <= 65535 {
            Some(Value::U16(*x as u16))
        } else {
            None
        },
        (BackendValue::Int(x), ValueKind::Int32) => Some(Value::I32(*x)),
        (BackendValue::BigInt(x), ValueKind::UInt32) => if 0 <= *x && *x <= 0xffff_ffff {
            Some(Value::U32(*x as u32))
        } else {
            None
        },
        (BackendValue::BigInt(x), ValueKind::Int64) => Some(Value::I64(*x)),
        (BackendValue::UnsignedBigInt(x), ValueKind::UInt64) => Some(Value::U64(*x)),
        (BackendValue::Varchar(s), ValueKind::Text) => Some(Value::Text(s.clone())),
        (BackendValue::Date(d), ValueKind::Date) => Some(Value::Date(*d)),
        (BackendValue::DateTime(dt), ValueKind::DateTime) => Some(Value::DateTime(*dt)),
        (BackendValue::Time(t), ValueKind::Time) => Some(Value::Time(*t)),
        _ => None,
    }
}

/// The numeric content of an integer envelope, if any.
pub open spec fn value_as_int(v: Value) -> Option<int> {
    match v {
        Value::I8(x) => Some(x as int),
        Value::U8(x) => Some(x as int),
        Value::I16(x) => Some(x as int),
        Value::U16(x) => Some(x as int),
        Value::I32(x) => Some(x as int),
        Value::U32(x) => Some(x as int),
        Value::I64(x) => Some(x as int),
        Value::U64(x) => Some(x as int),
        _ => None,
    }
}

/// The numeric content of an integer wire value, if any.
pub open spec fn backend_as_int(bv: BackendValue) -> Option<int> {
    match bv {
        BackendValue::TinyInt(x) => Some(x as int),
        BackendValue::SmallInt(x) => Some(x as int),
        BackendValue::Int(x) => Some(x as int),
        BackendValue::BigInt(x) => Some(x as int),
        BackendValue::UnsignedBigInt(x) => Some(x as int),
        _ => None,
    }
}

/// Law: backend conversion is lossless on both backends. Every integer
/// envelope reaches the wire with its exact numeric value, and text
/// reaches the wire unchanged.
pub proof fn lemma_conversion_lossless(v: Value, backend: Backend)
    ensures
        value_as_int(v) is Some ==> backend_as_int(spec_to_backend(v, backend)) == value_as_int(
            v,
        ),
        forall|s: String| v == Value::Text(s) ==> spec_to_backend(v, backend)
            == BackendValue::Varchar(s),
{
}

/// Law: reading a converted envelope back at its own kind recovers the
/// envelope exactly, on both backends.
pub proof fn lemma_backend_round_trip(v: Value, backend: Backend)
    ensures
        spec_from_backend(spec_to_backend(v, backend), v.spec_kind()) == Some(v),
{
}

} // verus!
