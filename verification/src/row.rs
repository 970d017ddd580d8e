//! The row mapper: reconstructs a typed entity instance from a generic
//! result row by looking each declared field up by column name and
//! converting the cell back to the field's declared kind, failing
//! explicitly on a missing column or a mismatched cell. Partial entities
//! are never produced.

use vstd::prelude::*;

use crate::backend::{
    backend_kind, backend_kind_of, from_backend_representation, lemma_backend_round_trip,
    spec_from_backend, spec_to_backend, Backend, BackendValue,
};
use crate::fields::{Entity, FieldValue};
use crate::registry::{EntityDescriptor, FieldMeta};
use crate::CanyonError;

verus! {

/// One cell of a result row: the column's name and its wire value.
#[derive(Debug, PartialEq)]
pub struct Column {
    pub name: String,
    pub value: BackendValue,
}

/// A generic result row handed back by the transport: named cells, looked
/// up by column name.
#[derive(Debug, PartialEq)]
pub struct Row {
    pub columns: Vec<Column>,
}

/// The first cell under `name`, if the row has one.
pub open spec fn row_lookup(cells: Seq<Column>, name: Seq<char>) -> Option<BackendValue>
    decreases cells.len(),
{
    if cells.len() == 0 {
        None
    } else if cells[0].name@ == name {
        Some(cells[0].value)
    } else {
        row_lookup(cells.skip(1), name)
    }
}

impl Row {
    /// Looks a cell up by column name, exactly as [`row_lookup`] states.
    pub fn get_by_name(&self, name: &String) -> (r: Option<&BackendValue>)
        ensures
            match r {
                Some(bv) => row_lookup(self.columns@, name@) == Some(*bv),
                None => row_lookup(self.columns@, name@) is None,
            },
    {
        let ghost cells = self.columns@;
        proof {
            assert(cells.skip(0) =~= cells);
        }
        let mut i: usize = 0;
        while i < self.columns.len()
            invariant
                i <= self.columns@.len(),
                cells == self.columns@,
                row_lookup(cells, name@) == row_lookup(cells.skip(i as int), name@),
            decreases self.columns@.len() - i,
        {
            if self.columns[i].name == *name {
                return Some(&self.columns[i].value);
            }
            proof {
                assert(cells.skip(i as int).skip(1) =~= cells.skip(i as int + 1));
            }
            i += 1;
        }
        proof {
            assert(cells.skip(i as int).len() == 0);
        }
        None
    }
}

/// The exact result of mapping a row against a declared field list, in
/// declared order: the first missing column or unconvertible cell fails
/// the whole mapping with its specific error; otherwise every field comes
/// back with its recovered value.
pub open spec fn spec_map_row(cells: Seq<Column>, fields: Seq<FieldMeta>) -> Result<
    Seq<FieldValue>,
    CanyonError,
>
    decreases fields.len(),
{
    if fields.len() == 0 {
        Ok(Seq::empty())
    } else {
        let f = fields[0];
        match row_lookup(cells, f.name@) {
            None => Err(CanyonError::MissingColumn(f.name)),
            Some(bv) => match spec_from_backend(bv, f.kind) {
                None => Err(
                    CanyonError::ColumnTypeMismatch {
                        column: f.name,
                        expected: f.kind,
                        actual: backend_kind(bv),
                    },
                ),
                Some(v) => match spec_map_row(cells, fields.skip(1)) {
                    Err(e) => Err(e),
                    Ok(rest) => Ok(seq![FieldValue { name: f.name, value: v }] + rest),
                },
            },
        }
    }
}

/// Reconstructs a typed entity from a result row, exactly as
/// [`spec_map_row`] states: every declared field must be satisfied, a
/// missing column fails with [`CanyonError::MissingColumn`], and an
/// unconvertible cell fails with [`CanyonError::ColumnTypeMismatch`]
/// naming the column, the declared kind and the cell's actual kind.
pub fn map_row(row: &Row, descriptor: &EntityDescriptor) -> (r: Result<Entity, CanyonError>)
    ensures
        match r {
            Ok(e) => spec_map_row(row.columns@, descriptor.fields@) == Ok::<
                Seq<FieldValue>,
                CanyonError,
            >(e.fields@),
            Err(err) => spec_map_row(row.columns@, descriptor.fields@) == Err::<
                Seq<FieldValue>,
                CanyonError,
            >(err),
        },
{
    let ghost cells = row.columns@;
    let ghost fields = descriptor.fields@;
    let mut out: Vec<FieldValue> = Vec::new();
    proof {
        assert(fields.skip(0) =~= fields);
        assert(Seq::<FieldValue>::empty() + spec_map_row(cells, fields)->Ok_0 =~= spec_map_row(
            cells,
            fields,
        )->Ok_0);
    }
    let mut i: usize = 0;
    while i < descriptor.fields.len()
        invariant
            i <= fields.len(),
            cells == row.columns@,
            fields == descriptor.fields@,
            match spec_map_row(cells, fields.skip(i as int)) {
                Ok(rest) => spec_map_row(cells, fields) == Ok::<
                    Seq<FieldValue>,
                    CanyonError,
                >(out@ + rest),
                Err(e) => spec_map_row(cells, fields) == Err::<
                    Seq<FieldValue>,
                    CanyonError,
                >(e),
            },
        decreases fields.len() - i,
    {
        let fm = &descriptor.fields[i];
        proof {
            assert(fields.skip(i as int)[0] == fields[i as int]);
            assert(fields.skip(i as int).skip(1) =~= fields.skip(i as int + 1));
        }
        match row.get_by_name(&fm.name) {
            None => {
                return Err(CanyonError::MissingColumn(fm.name.clone()));
            },
            Some(bv) => {
                match from_backend_representation(bv, fm.kind) {
                    None => {
                        return Err(
                            CanyonError::ColumnTypeMismatch {
                                column: fm.name.clone(),
                                expected: fm.kind,
                                actual: backend_kind_of(bv),
                            },
                        );
                    },
                    Some(v) => {
                        let ghost prev = out@;
                        out.push(FieldValue { name: fm.name.clone(), value: v });
                        proof {
                            if spec_map_row(cells, fields.skip(i as int + 1)) is Ok {
                                let rest = spec_map_row(
                                    cells,
                                    fields.skip(i as int + 1),
                                )->Ok_0;
                                assert(prev + (seq![
                                    FieldValue { name: fields[i as int].name, value: v },
                                ] + rest) =~= out@ + rest);
                            }
                        }
                    },
                }
            },
        }
        i += 1;
    }
    proof {
        assert(fields.skip(i as int).len() == 0);
        assert(out@ + Seq::<FieldValue>::empty() =~= out@);
    }
    Ok(Entity { fields: out })
}

/// The row a backend hands back when every declared field of an entity
/// comes back as its own column, in declared order, in that backend's
/// wire representation.
pub open spec fn row_of(fields: Seq<FieldValue>, backend: Backend) -> Seq<Column> {
    fields.map_values(
        |f: FieldValue| Column { name: f.name, value: spec_to_backend(f.value, backend) },
    )
}

proof fn lemma_row_of_lookup(fields: Seq<FieldValue>, backend: Backend, k: int)
    requires
        forall|a: int, b: int|
            0 <= a < b < fields.len() ==> fields[a].name@ != fields[b].name@,
        0 <= k < fields.len(),
    ensures
        row_lookup(row_of(fields, backend), fields[k].name@) == Some(
            spec_to_backend(fields[k].value, backend),
        ),
    decreases k,
{
    let cells = row_of(fields, backend);
    if k == 0 {
        assert(cells[0].name@ == fields[0].name@);
    } else {
        assert(cells[0].name@ == fields[0].name@);
        assert(fields[0].name@ != fields[k].name@);
        assert(cells.skip(1) =~= row_of(fields.skip(1), backend));
        lemma_row_of_lookup(fields.skip(1), backend, k - 1);
        assert(fields.skip(1)[k - 1] == fields[k]);
    }
}

proof fn lemma_map_row_of_suffix(
    fields: Seq<FieldValue>,
    metas: Seq<FieldMeta>,
    backend: Backend,
    i: int,
)
    requires
        metas.len() == fields.len(),
        forall|a: int, b: int|
            0 <= a < b < fields.len() ==> fields[a].name@ != fields[b].name@,
        forall|j: int| #![trigger metas[j]]
            0 <= j < fields.len() ==> metas[j].name@ == fields[j].name@ && metas[j].kind
                == fields[j].value.spec_kind(),
        0 <= i <= fields.len(),
    ensures
        spec_map_row(row_of(fields, backend), metas.skip(i)) == Ok::<
            Seq<FieldValue>,
            CanyonError,
        >(
            Seq::new(
                (fields.len() - i) as nat,
                |j: int| FieldValue { name: metas[i + j].name, value: fields[i + j].value },
            ),
        ),
    decreases fields.len() - i,
{
    let cells = row_of(fields, backend);
    let expected = Seq::new(
        (fields.len() - i) as nat,
        |j: int| FieldValue { name: metas[i + j].name, value: fields[i + j].value },
    );
    if i == fields.len() {
        assert(metas.skip(i).len() == 0);
        assert(expected =~= Seq::<FieldValue>::empty());
    } else {
        assert(metas.skip(i)[0] == metas[i]);
        assert(metas[i].name@ == fields[i].name@);
        lemma_row_of_lookup(fields, backend, i);
        lemma_backend_round_trip(fields[i].value, backend);
        lemma_map_row_of_suffix(fields, metas, backend, i + 1);
        assert(metas.skip(i).skip(1) =~= metas.skip(i + 1));
        let rest = Seq::new(
            (fields.len() - i - 1) as nat,
            |j: int| FieldValue {
                name: metas[i + 1 + j].name,
                value: fields[i + 1 + j].value,
            },
        );
        assert(spec_map_row(cells, metas.skip(i)) == Ok::<
            Seq<FieldValue>,
            CanyonError,
        >(seq![FieldValue { name: metas[i].name, value: fields[i].value }] + rest));
        assert(seq![FieldValue { name: metas[i].name, value: fields[i].value }] + rest
            =~= expected);
    }
}

/// Law: mapping the row that carries an entity's own fields back -- every
/// declared column present, in declared order, in either backend's wire
/// representation -- succeeds and recovers every declared field with its
/// exact value, provided the declared kinds match the values and the
/// declared names are distinct.
pub proof fn lemma_entity_round_trip(
    fields: Seq<FieldValue>,
    metas: Seq<FieldMeta>,
    backend: Backend,
)
    requires
        metas.len() == fields.len(),
        forall|a: int, b: int|
            0 <= a < b < fields.len() ==> fields[a].name@ != fields[b].name@,
        forall|j: int| #![trigger metas[j]]
            0 <= j < fields.len() ==> metas[j].name@ == fields[j].name@ && metas[j].kind
                == fields[j].value.spec_kind(),
    ensures
        spec_map_row(row_of(fields, backend), metas) == Ok::<
            Seq<FieldValue>,
            CanyonError,
        >(
            Seq::new(
                fields.len(),
                |j: int| FieldValue { name: metas[j].name, value: fields[j].value },
            ),
        ),
{
    lemma_map_row_of_suffix(fields, metas, backend, 0);
    assert(metas.skip(0) =~= metas);
    assert(Seq::new(
        (fields.len() - 0) as nat,
        |j: int| FieldValue { name: metas[0 + j].name, value: fields[0 + j].value },
    ) =~= Seq::new(
        fields.len(),
        |j: int| FieldValue { name: metas[j].name, value: fields[j].value },
    ));
}

} // verus!
