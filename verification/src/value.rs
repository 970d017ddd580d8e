//! The value envelope: a closed, type-tagged container for one primitive
//! value usable as a query parameter or column value, together with the
//! checked wrapping and unwrapping of native values.

use vstd::prelude::*;

use crate::CanyonError;

verus! {

/// A calendar date, held as plain year, month and day numbers.
///
/// Well-formed dates ([`Date::wf`]) have a year in 1..=9999, a month in
/// 1..=12 and a day that exists in that month of that year.
#[derive(Clone, Copy, Debug, PartialEq, Eq, Structural)]
pub struct Date {
    pub year: u16,
    pub month: u8,
    pub day: u8,
}

/// A time of day, held as plain hour, minute and second numbers.
#[derive(Clone, Copy, Debug, PartialEq, Eq, Structural)]
pub struct Time {
    pub hour: u8,
    pub minute: u8,
    pub second: u8,
}

/// A calendar date together with a time of day.
#[derive(Clone, Copy, Debug, PartialEq, Eq, Structural)]
pub struct DateTime {
    pub date: Date,
    pub time: Time,
}

/// Whether `year` is a leap year in the Gregorian calendar.
pub open spec fn leap_year(year: u16) -> bool {
    year % 4 == 0 && (year % 100 != 0 || year % 400 == 0)
}

/// How many days `month` has in `year`.
pub open spec fn days_in_month(year: u16, month: u8) -> u8
    recommends
        1 <= month <= 12,
{
    if month == 2 {
        if leap_year(year) {
            29
        } else {
            28
        }
    } else if month == 4 || month == 6 || month == 9 || month == 11 {
        30
    } else {
        31
    }
}

/// Executable [`leap_year`].
pub fn is_leap_year(year: u16) -> (r: bool)
    ensures
        r == leap_year(year),
{
    year % 4 == 0 && (year % 100 != 0 || year % 400 == 0)
}

/// Executable [`days_in_month`].
pub fn month_length(year: u16, month: u8) -> (r: u8)
    ensures
        r == days_in_month(year, month),
{
    if month == 2 {
        if is_leap_year(year) {
            29
        } else {
            28
        }
    } else if month == 4 || month == 6 || month == 9 || month == 11 {
        30
    } else {
        31
    }
}

impl Date {
    /// A date is well-formed when its fields name a day that exists in the
    /// Gregorian calendar, with the year restricted to 1..=9999.
    pub open spec fn wf(self) -> bool {
        &&& 1 <= self.year <= 9999
        &&& 1 <= self.month <= 12
        &&& 1 <= self.day <= days_in_month(self.year, self.month)
    }

    /// Builds a date, rejecting any field combination that does not name an
    /// existing calendar day.
    pub fn new(year: u16, month: u8, day: u8) -> (r: Option<Date>)
        ensures
            match r {
                Some(d) => d == (Date { year, month, day }) && d.wf(),
                None => !(Date { year, month, day }).wf(),
            },
    {
        if 1 <= year && year <= 9999 && 1 <= month && month <= 12 && 1 <= day && day
            <= month_length(year, month) {
            Some(Date { year, month, day })
        } else {
            None
        }
    }
}

impl Time {
    /// A time of day is well-formed below 24:60:60 (no leap seconds).
    pub open spec fn wf(self) -> bool {
        self.hour < 24 && self.minute < 60 && self.second < 60
    }

    /// Builds a time of day, rejecting out-of-range fields.
    pub fn new(hour: u8, minute: u8, second: u8) -> (r: Option<Time>)
        ensures
            match r {
                Some(t) => t == (Time { hour, minute, second }) && t.wf(),
                None => !(Time { hour, minute, second }).wf(),
            },
    {
        if hour < 24 && minute < 60 && second < 60 {
            Some(Time { hour, minute, second })
        } else {
            None
        }
    }
}

impl DateTime {
    /// Well-formed when both halves are.
    pub open spec fn wf(self) -> bool {
        self.date.wf() && self.time.wf()
    }

    /// Builds a date-time, rejecting any half that is out of range.
    pub fn new(date: Date, time: Time) -> (r: Option<DateTime>)
        ensures
            match r {
                Some(dt) => dt == (DateTime { date, time }) && dt.wf(),
                None => !(DateTime { date, time }).wf(),
            },
    {
        if date.month >= 1 && date.month <= 12 {
            if date.year >= 1 && date.year <= 9999 && date.day >= 1 && date.day
                <= month_length(date.year, date.month) && time.hour < 24 && time.minute < 60
                && time.second < 60 {
                return Some(DateTime { date, time });
            }
        }
        None
    }
}

/// The kind tag of a value envelope: one tag per supported primitive type.
#[derive(Clone, Copy, Debug, PartialEq, Eq, Structural)]
pub enum ValueKind {
    Int8,
    UInt8,
    Int16,
    UInt16,
    Int32,
    UInt32,
    Int64,
    UInt64,
    Text,
    Date,
    DateTime,
    Time,
}

/// The value envelope: a closed sum over the supported primitive kinds.
///
/// Exactly one variant is active per instance; the set of variants is fixed
/// and exhaustive, so every converter that matches on it is checked for
/// exhaustiveness when a kind is added.
#[derive(Debug, PartialEq)]
pub enum Value {
    I8(i8),
    U8(u8),
    I16(i16),
    U16(u16),
    I32(i32),
    U32(u32),
    I64(i64),
    U64(u64),
    Text(String),
    Date(Date),
    DateTime(DateTime),
    Time(Time),
}

impl Value {
    /// The kind tag of the active variant.
    pub open spec fn spec_kind(&self) -> ValueKind {
        match self {
            Value::I8(_) => ValueKind::Int8,
            Value::U8(_) => ValueKind::UInt8,
            Value::I16(_) => ValueKind::Int16,
            Value::U16(_) => ValueKind::UInt16,
            Value::I32(_) => ValueKind::Int32,
            Value::U32(_) => ValueKind::UInt32,
            Value::I64(_) => ValueKind::Int64,
            Value::U64(_) => ValueKind::UInt64,
            Value::Text(_) => ValueKind::Text,
            Value::Date(_) => ValueKind::Date,
            Value::DateTime(_) => ValueKind::DateTime,
            Value::Time(_) => ValueKind::Time,
        }
    }

    /// Reports the kind tag of the active variant.
    #[verifier::when_used_as_spec(spec_kind)]
    pub fn kind(&self) -> (k: ValueKind)
        ensures
            k == self.spec_kind(),
    {
        match self {
            Value::I8(_) => ValueKind::Int8,
            Value::U8(_) => ValueKind::UInt8,
            Value::I16(_) => ValueKind::Int16,
            Value::U16(_) => ValueKind::UInt16,
            Value::I32(_) => ValueKind::Int32,
            Value::U32(_) => ValueKind::UInt32,
            Value::I64(_) => ValueKind::Int64,
            Value::U64(_) => ValueKind::UInt64,
            Value::Text(_) => ValueKind::Text,
            Value::Date(_) => ValueKind::Date,
            Value::DateTime(_) => ValueKind::DateTime,
            Value::Time(_) => ValueKind::Time,
        }
    }
}

impl Clone for Value {
    /// Cloning an envelope preserves it exactly, text included.
    fn clone(&self) -> (r: Value)
        ensures
            r == *self,
    {
        match self {
            Value::I8(x) => Value::I8(*x),
            Value::U8(x) => Value::U8(*x),
            Value::I16(x) => Value::I16(*x),
            Value::U16(x) => Value::U16(*x),
            Value::I32(x) => Value::I32(*x),
            Value::U32(x) => Value::U32(*x),
            Value::I64(x) => Value::I64(*x),
            Value::U64(x) => Value::U64(*x),
            Value::Text(s) => Value::Text(s.clone()),
            Value::Date(d) => Value::Date(*d),
            Value::DateTime(dt) => Value::DateTime(*dt),
            Value::Time(t) => Value::Time(*t),
        }
    }
}

/// The allowed datatypes for query parameters: every implementor can be
/// wrapped into a [`Value`] envelope and recovered from one.
///
/// `unwrap_as` recovers a concrete value only when the envelope's active
/// variant matches the requested type; otherwise it reports a
/// [`CanyonError::TypeMismatch`] naming the requested kind and the
/// envelope's actual kind.
pub trait QueryParameters: Sized {
    /// The envelope this value wraps into.
    spec fn to_value(self) -> Value;

    /// The exact result of unwrapping any envelope at this type.
    spec fn from_value(v: Value) -> Result<Self, CanyonError>;

    /// The kind tag that envelopes of this type carry.
    spec fn expected_kind() -> ValueKind;

    /// Wraps a native value into its envelope.
    fn wrap(self) -> (r: Value)
        ensures
            r == self.to_value(),
    ;

    /// Recovers a native value from an envelope, exactly as
    /// [`QueryParameters::from_value`] states.
    fn unwrap_as(v: Value) -> (r: Result<Self, CanyonError>)
        ensures
            r == Self::from_value(v),
    ;

    /// Wrapping always yields an envelope of this type's kind.
    proof fn lemma_wrap_kind(self)
        ensures
            self.to_value().spec_kind() == Self::expected_kind(),
    ;

    /// Unwrapping an envelope this value wrapped into gives the value back.
    proof fn lemma_round_trip(self)
        ensures
            Self::from_value(self.to_value()) == Ok::<Self, CanyonError>(self),
    ;

    /// Unwrapping succeeds exactly on envelopes of this type's kind; on any
    /// other envelope it reports the mismatched pair of kinds.
    proof fn lemma_kind_match(v: Value)
        ensures
            v.spec_kind() == Self::expected_kind() ==> Self::from_value(v) is Ok,
            v.spec_kind() != Self::expected_kind() ==> Self::from_value(v) == Err::<
                Self,
                CanyonError,
            >(
                CanyonError::TypeMismatch {
                    expected: Self::expected_kind(),
                    actual: v.spec_kind(),
                },
            ),
    ;
}

/// Law: for every supported primitive value, wrapping and then unwrapping
/// at the same type round-trips to the value itself, and unwrapping any
/// envelope of a different kind reports exactly the type mismatch between
/// the requested kind and the envelope's kind.
pub proof fn lemma_wrap_unwrap_round_trip<T: QueryParameters>(x: T, v: Value)
    ensures
        T::from_value(x.to_value()) == Ok::<T, CanyonError>(x),
        v.spec_kind() != T::expected_kind() ==> T::from_value(v) == Err::<T, CanyonError>(
            CanyonError::TypeMismatch { expected: T::expected_kind(), actual: v.spec_kind() },
        ),
{
    x.lemma_round_trip();
    T::lemma_kind_match(v);
}

impl QueryParameters for i32 {
    open spec fn to_value(self) -> Value {
        Value::I32(self)
    }

    open spec fn from_value(v: Value) -> Result<i32, CanyonError> {
        match v {
            Value::I32(x) => Ok(x),
            _ => Err(
                CanyonError::TypeMismatch { expected: ValueKind::Int32, actual: v.spec_kind() },
            ),
        }
    }

    open spec fn expected_kind() -> ValueKind {
        ValueKind::Int32
    }

    fn wrap(self) -> (r: Value) {
        Value::I32(self)
    }

    fn unwrap_as(v: Value) -> (r: Result<i32, CanyonError>) {
        let actual = v.kind();
        match v {
            Value::I32(x) => Ok(x),
            _ => Err(CanyonError::TypeMismatch { expected: ValueKind::Int32, actual }),
        }
    }

    proof fn lemma_wrap_kind(self) {
    }

    proof fn lemma_round_trip(self) {
    }

    proof fn lemma_kind_match(v: Value) {
    }
}

impl QueryParameters for String {
    open spec fn to_value(self) -> Value {
        Value::Text(self)
    }

    open spec fn from_value(v: Value) -> Result<String, CanyonError> {
        match v {
            Value::Text(s) => Ok(s),
            _ => Err(
                CanyonError::TypeMismatch { expected: ValueKind::Text, actual: v.spec_kind() },
            ),
        }
    }

    open spec fn expected_kind() -> ValueKind {
        ValueKind::Text
    }

    fn wrap(self) -> (r: Value) {
        Value::Text(self)
    }

    fn unwrap_as(v: Value) -> (r: Result<String, CanyonError>) {
        let actual = v.kind();
        match v {
            Value::Text(s) => Ok(s),
            _ => Err(CanyonError::TypeMismatch { expected: ValueKind::Text, actual }),
        }
    }

    proof fn lemma_wrap_kind(self) {
    }

    proof fn lemma_round_trip(self) {
    }

    proof fn lemma_kind_match(v: Value) {
    }
}

impl QueryParameters for i8 {
    open spec fn to_value(self) -> Value {
        Value::I8(self)
    }

    open spec fn from_value(v: Value) -> Result<i8, CanyonError> {
        match v {
            Value::I8(x) => Ok(x),
            _ => Err(
                CanyonError::TypeMismatch { expected: ValueKind::Int8, actual: v.spec_kind() },
            ),
        }
    }

    open spec fn expected_kind() -> ValueKind {
        ValueKind::Int8
    }

    fn wrap(self) -> (r: Value) {
        Value::I8(self)
    }

    fn unwrap_as(v: Value) -> (r: Result<i8, CanyonError>) {
        let actual = v.kind();
        match v {
            Value::I8(x) => Ok(x),
            _ => Err(CanyonError::TypeMismatch { expected: ValueKind::Int8, actual }),
        }
    }

    proof fn lemma_wrap_kind(self) {
    }

    proof fn lemma_round_trip(self) {
    }

    proof fn lemma_kind_match(v: Value) {
    }
}

impl QueryParameters for u8 {
    open spec fn to_value(self) -> Value {
        Value::U8(self)
    }

    open spec fn from_value(v: Value) -> Result<u8, CanyonError> {
        match v {
            Value::U8(x) => Ok(x),
            _ => Err(
                CanyonError::TypeMismatch { expected: ValueKind::UInt8, actual: v.spec_kind() },
            ),
        }
    }

    open spec fn expected_kind() -> ValueKind {
        ValueKind::UInt8
    }

    fn wrap(self) -> (r: Value) {
        Value::U8(self)
    }

    fn unwrap_as(v: Value) -> (r: Result<u8, CanyonError>) {
        let actual = v.kind();
        match v {
            Value::U8(x) => Ok(x),
            _ => Err(CanyonError::TypeMismatch { expected: ValueKind::UInt8, actual }),
        }
    }

    proof fn lemma_wrap_kind(self) {
    }

    proof fn lemma_round_trip(self) {
    }

    proof fn lemma_kind_match(v: Value) {
    }
}

impl QueryParameters for i16 {
    open spec fn to_value(self) -> Value {
        Value::I16(self)
    }

    open spec fn from_value(v: Value) -> Result<i16, CanyonError> {
        match v {
            Value::I16(x) => Ok(x),
            _ => Err(
                CanyonError::TypeMismatch { expected: ValueKind::Int16, actual: v.spec_kind() },
            ),
        }
    }

    open spec fn expected_kind() -> ValueKind {
        ValueKind::Int16
    }

    fn wrap(self) -> (r: Value) {
        Value::I16(self)
    }

    fn unwrap_as(v: Value) -> (r: Result<i16, CanyonError>) {
        let actual = v.kind();
        match v {
            Value::I16(x) => Ok(x),
            _ => Err(CanyonError::TypeMismatch { expected: ValueKind::Int16, actual }),
        }
    }

    proof fn lemma_wrap_kind(self) {
    }

    proof fn lemma_round_trip(self) {
    }

    proof fn lemma_kind_match(v: Value) {
    }
}

impl QueryParameters for u16 {
    open spec fn to_value(self) -> Value {
        Value::U16(self)
    }

    open spec fn from_value(v: Value) -> Result<u16, CanyonError> {
        match v {
            Value::U16(x) => Ok(x),
            _ => Err(
                CanyonError::TypeMismatch { expected: ValueKind::UInt16, actual: v.spec_kind() },
            ),
        }
    }

    open spec fn expected_kind() -> ValueKind {
        ValueKind::UInt16
    }

    fn wrap(self) -> (r: Value) {
        Value::U16(self)
    }

    fn unwrap_as(v: Value) -> (r: Result<u16, CanyonError>) {
        let actual = v.kind();
        match v {
            Value::U16(x) => Ok(x),
            _ => Err(CanyonError::TypeMismatch { expected: ValueKind::UInt16, actual }),
        }
    }

    proof fn lemma_wrap_kind(self) {
    }

    proof fn lemma_round_trip(self) {
    }

    proof fn lemma_kind_match(v: Value) {
    }
}

impl QueryParameters for u32 {
    open spec fn to_value(self) -> Value {
        Value::U32(self)
    }

    open spec fn from_value(v: Value) -> Result<u32, CanyonError> {
        match v {
            Value::U32(x) => Ok(x),
            _ => Err(
                CanyonError::TypeMismatch { expected: ValueKind::UInt32, actual: v.spec_kind() },
            ),
        }
    }

    open spec fn expected_kind() -> ValueKind {
        ValueKind::UInt32
    }

    fn wrap(self) -> (r: Value) {
        Value::U32(self)
    }

    fn unwrap_as(v: Value) -> (r: Result<u32, CanyonError>) {
        let actual = v.kind();
        match v {
            Value::U32(x) => Ok(x),
            _ => Err(CanyonError::TypeMismatch { expected: ValueKind::UInt32, actual }),
        }
    }

    proof fn lemma_wrap_kind(self) {
    }

    proof fn lemma_round_trip(self) {
    }

    proof fn lemma_kind_match(v: Value) {
    }
}

impl QueryParameters for i64 {
    open spec fn to_value(self) -> Value {
        Value::I64(self)
    }

    open spec fn from_value(v: Value) -> Result<i64, CanyonError> {
        match v {
            Value::I64(x) => Ok(x),
            _ => Err(
                CanyonError::TypeMismatch { expected: ValueKind::Int64, actual: v.spec_kind() },
            ),
        }
    }

    open spec fn expected_kind() -> ValueKind {
        ValueKind::Int64
    }

    fn wrap(self) -> (r: Value) {
        Value::I64(self)
    }

    fn unwrap_as(v: Value) -> (r: Result<i64, CanyonError>) {
        let actual = v.kind();
        match v {
            Value::I64(x) => Ok(x),
            _ => Err(CanyonError::TypeMismatch { expected: ValueKind::Int64, actual }),
        }
    }

    proof fn lemma_wrap_kind(self) {
    }

    proof fn lemma_round_trip(self) {
    }

    proof fn lemma_kind_match(v: Value) {
    }
}

impl QueryParameters for u64 {
    open spec fn to_value(self) -> Value {
        Value::U64(self)
    }

    open spec fn from_value(v: Value) -> Result<u64, CanyonError> {
        match v {
            Value::U64(x) => Ok(x),
            _ => Err(
                CanyonError::TypeMismatch { expected: ValueKind::UInt64, actual: v.spec_kind() },
            ),
        }
    }

    open spec fn expected_kind() -> ValueKind {
        ValueKind::UInt64
    }

    fn wrap(self) -> (r: Value) {
        Value::U64(self)
    }

    fn unwrap_as(v: Value) -> (r: Result<u64, CanyonError>) {
        let actual = v.kind();
        match v {
            Value::U64(x) => Ok(x),
            _ => Err(CanyonError::TypeMismatch { expected: ValueKind::UInt64, actual }),
        }
    }

    proof fn lemma_wrap_kind(self) {
    }

    proof fn lemma_round_trip(self) {
    }

    proof fn lemma_kind_match(v: Value) {
    }
}

impl QueryParameters for Date {
    open spec fn to_value(self) -> Value {
        Value::Date(self)
    }

    open spec fn from_value(v: Value) -> Result<Date, CanyonError> {
        match v {
            Value::Date(x) => Ok(x),
            _ => Err(
                CanyonError::TypeMismatch { expected: ValueKind::Date, actual: v.spec_kind() },
            ),
        }
    }

    open spec fn expected_kind() -> ValueKind {
        ValueKind::Date
    }

    fn wrap(self) -> (r: Value) {
        Value::Date(self)
    }

    fn unwrap_as(v: Value) -> (r: Result<Date, CanyonError>) {
        let actual = v.kind();
        match v {
            Value::Date(x) => Ok(x),
            _ => Err(CanyonError::TypeMismatch { expected: ValueKind::Date, actual }),
        }
    }

    proof fn lemma_wrap_kind(self) {
    }

    proof fn lemma_round_trip(self) {
    }

    proof fn lemma_kind_match(v: Value) {
    }
}

impl QueryParameters for DateTime {
    open spec fn to_value(self) -> Value {
        Value::DateTime(self)
    }

    open spec fn from_value(v: Value) -> Result<DateTime, CanyonError> {
        match v {
            Value::DateTime(x) => Ok(x),
            _ => Err(
                CanyonError::TypeMismatch { expected: ValueKind::DateTime, actual: v.spec_kind() },
            ),
        }
    }

    open spec fn expected_kind() -> ValueKind {
        ValueKind::DateTime
    }

    fn wrap(self) -> (r: Value) {
        Value::DateTime(self)
    }

    fn unwrap_as(v: Value) -> (r: Result<DateTime, CanyonError>) {
        let actual = v.kind();
        match v {
            Value::DateTime(x) => Ok(x),
            _ => Err(CanyonError::TypeMismatch { expected: ValueKind::DateTime, actual }),
        }
    }

    proof fn lemma_wrap_kind(self) {
    }

    proof fn lemma_round_trip(self) {
    }

    proof fn lemma_kind_match(v: Value) {
    }
}

impl QueryParameters for Time {
    open spec fn to_value(self) -> Value {
        Value::Time(self)
    }

    open spec fn from_value(v: Value) -> Result<Time, CanyonError> {
        match v {
            Value::Time(x) => Ok(x),
            _ => Err(
                CanyonError::TypeMismatch { expected: ValueKind::Time, actual: v.spec_kind() },
            ),
        }
    }

    open spec fn expected_kind() -> ValueKind {
        ValueKind::Time
    }

    fn wrap(self) -> (r: Value) {
        Value::Time(self)
    }

    fn unwrap_as(v: Value) -> (r: Result<Time, CanyonError>) {
        let actual = v.kind();
        match v {
            Value::Time(x) => Ok(x),
            _ => Err(CanyonError::TypeMismatch { expected: ValueKind::Time, actual }),
        }
    }

    proof fn lemma_wrap_kind(self) {
    }

    proof fn lemma_round_trip(self) {
    }

    proof fn lemma_kind_match(v: Value) {
    }
}

/// The types this crate accepts as primary keys: 32- and 64-bit signed
/// integers and text.
pub trait PrimaryKey: QueryParameters {

}

impl PrimaryKey for i32 {

}

impl PrimaryKey for String {

}

impl PrimaryKey for i64 {

}


/// The types that may stand in an SQL `IN (...)` clause.
pub trait InClauseValues: QueryParameters {

}

impl InClauseValues for i8 {

}

impl InClauseValues for u8 {

}

impl InClauseValues for i16 {

}

impl InClauseValues for u16 {

}

impl InClauseValues for i32 {

}

impl InClauseValues for u32 {

}

impl InClauseValues for i64 {

}

impl InClauseValues for u64 {

}

impl InClauseValues for String {

}

} // verus!
