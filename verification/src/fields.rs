//! The two parallel views over an entity's declared fields: the
//! identifier-only view (which column) and the value-carrying view (which
//! column with what value), plus the entity instance built from the latter.

use vstd::prelude::*;

use crate::value::Value;

verus! {

/// The identifier-only view of one declared field: its name and its
/// declared position within the entity.
///
/// Equality and ordering are by declared field position, never by string
/// comparison, so they stay stable under renaming of the name string.
#[derive(Debug)]
pub struct FieldId {
    pub pos: usize,
    pub name: String,
}

/// The ability of a field view to hand out the declared field name it
/// stands for, for use in clause construction.
pub trait FieldIdentifier {
    /// The name this view reports.
    spec fn spec_field_name(&self) -> Seq<char>;

    /// The field's name, as an owned string.
    fn field_name_as_str(&self) -> (r: String)
        ensures
            r@ == self.spec_field_name(),
    ;
}

/// The ability of a field view to hand out both the declared field name
/// and the field's current value, for building SET and VALUES lists.
pub trait FieldValueIdentifier {
    /// The name this view reports.
    spec fn spec_field_name(&self) -> Seq<char>;

    /// The value this view carries.
    spec fn spec_value(&self) -> Value;

    /// The field's name together with its current value envelope.
    fn value(&self) -> (r: (&String, &Value))
        ensures
            r.0@ == self.spec_field_name(),
            *r.1 == self.spec_value(),
    ;
}

impl FieldIdentifier for FieldId {
    open spec fn spec_field_name(&self) -> Seq<char> {
        self.name@
    }

    fn field_name_as_str(&self) -> (r: String) {
        self.name.clone()
    }
}

impl PartialEq for FieldId {
    /// Field identifiers compare by declared position alone.
    fn eq(&self, other: &Self) -> (r: bool)
    {
        self.pos == other.pos
    }
}

impl vstd::std_specs::cmp::PartialEqSpecImpl for FieldId {
    open spec fn obeys_eq_spec() -> bool {
        true
    }

    open spec fn eq_spec(&self, other: &Self) -> bool {
        self.pos == other.pos
    }
}

impl PartialOrd for FieldId {
    /// Field identifiers order by declared position alone.
    fn partial_cmp(&self, other: &Self) -> (r: Option<core::cmp::Ordering>)
    {
        if self.pos < other.pos {
            Some(core::cmp::Ordering::Less)
        } else if self.pos == other.pos {
            Some(core::cmp::Ordering::Equal)
        } else {
            Some(core::cmp::Ordering::Greater)
        }
    }
}

impl vstd::std_specs::cmp::PartialOrdSpecImpl for FieldId {
    open spec fn obeys_partial_cmp_spec() -> bool {
        true
    }

    open spec fn partial_cmp_spec(&self, other: &Self) -> Option<core::cmp::Ordering> {
        if self.pos < other.pos {
            Some(core::cmp::Ordering::Less)
        } else if self.pos == other.pos {
            Some(core::cmp::Ordering::Equal)
        } else {
            Some(core::cmp::Ordering::Greater)
        }
    }
}

/// The value-carrying view of one declared field: its name together with
/// the field's current value envelope.
#[derive(Debug, PartialEq)]
pub struct FieldValue {
    pub name: String,
    pub value: Value,
}

impl FieldValueIdentifier for FieldValue {
    open spec fn spec_field_name(&self) -> Seq<char> {
        self.name@
    }

    open spec fn spec_value(&self) -> Value {
        self.value
    }

    fn value(&self) -> (r: (&String, &Value)) {
        (&self.name, &self.value)
    }
}

impl Clone for FieldValue {
    /// Cloning preserves the name and the value exactly.
    fn clone(&self) -> (r: Self)
        ensures
            r == *self,
    {
        FieldValue { name: self.name.clone(), value: self.value.clone() }
    }
}

/// An entity instance: its declared fields, in declared order, each
/// carrying its current value.
#[derive(Debug, PartialEq)]
pub struct Entity {
    pub fields: Vec<FieldValue>,
}

impl Entity {
    /// The identifier-only view: every declared field appears exactly once,
    /// at its declared position, in the same relative order as in the
    /// value-carrying view.
    pub fn field_identifiers(&self) -> (r: Vec<FieldId>)
        ensures
            r@.len() == self.fields@.len(),
            forall|i: int|
                0 <= i < r@.len() ==> r@[i].pos == i && r@[i].name@ == self.fields@[i].name@,
    {
        let mut out: Vec<FieldId> = Vec::new();
        let mut i: usize = 0;
        while i < self.fields.len()
            invariant
                i <= self.fields@.len(),
                out@.len() == i,
                forall|j: int|
                    0 <= j < i ==> out@[j].pos == j && out@[j].name@ == self.fields@[j].name@,
            decreases self.fields@.len() - i,
        {
            out.push(FieldId { pos: i, name: self.fields[i].name.clone() });
            i += 1;
        }
        out
    }

    /// The value-carrying view: the same fields, in the same order, each
    /// with its value.
    pub fn field_values(&self) -> (r: Vec<FieldValue>)
        ensures
            r@.len() == self.fields@.len(),
            forall|i: int| 0 <= i < r@.len() ==> r@[i] == self.fields@[i],
    {
        let mut out: Vec<FieldValue> = Vec::new();
        let mut i: usize = 0;
        while i < self.fields.len()
            invariant
                i <= self.fields@.len(),
                out@.len() == i,
                forall|j: int| 0 <= j < i ==> out@[j] == self.fields@[j],
            decreases self.fields@.len() - i,
        {
            out.push(self.fields[i].clone());
            i += 1;
        }
        out
    }
}

} // verus!
