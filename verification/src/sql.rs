//! The CRUD statement builder: parameterized SQL text plus the ordered
//! parameter set for each supported operation. Placeholder syntax is
//! selected from the active backend tag by one formatting function, and
//! every comparison or literal value passes through the value envelope,
//! never through string interpolation.

use vstd::prelude::*;

use crate::backend::Backend;
use crate::fields::FieldValue;
use crate::text::{dec_str, push_dec};
use crate::value::{InClauseValues, PrimaryKey, QueryParameters, Value};
use crate::CanyonError;

verus! {

/// The ephemeral, ordered parameter set of one statement: the value
/// envelopes in placeholder order, plus the target backend tag.
#[derive(Debug, PartialEq)]
pub struct QueryParameterSet {
    pub backend: Backend,
    pub values: Vec<Value>,
}

/// One ready-to-execute statement: its SQL text and its parameter set,
/// with placeholder positions matching parameter order.
#[derive(Debug, PartialEq)]
pub struct Statement {
    pub sql: String,
    pub params: QueryParameterSet,
}

/// The placeholder for parameter `i` (1-based) in the syntax of the
/// active backend: `$i` or `@pi`.
pub open spec fn placeholder(backend: Backend, i: nat) -> Seq<char> {
    match backend {
        Backend::Postgres => "$"@ + dec_str(i),
        Backend::SqlServer => "@p"@ + dec_str(i),
    }
}

/// Appends the placeholder for parameter `i` to `s`.
fn push_placeholder(s: &mut String, backend: Backend, i: usize)
    ensures
        final(s)@ == old(s)@ + placeholder(backend, i as nat),
{
    match backend {
        Backend::Postgres => s.append("$"),
        Backend::SqlServer => s.append("@p"),
    }
    push_dec(s, i);
    proof {
        assert(final(s)@ =~= old(s)@ + placeholder(backend, i as nat));
    }
}

/// The comma-separated list of the field names, in declared order.
pub open spec fn column_list(fields: Seq<FieldValue>) -> Seq<char>
    decreases fields.len(),
{
    if fields.len() == 0 {
        Seq::empty()
    } else if fields.len() == 1 {
        fields[0].name@
    } else {
        column_list(fields.drop_last()) + ", "@ + fields.last().name@
    }
}

/// The comma-separated list of the first `n` placeholders, in ascending
/// positional order starting at 1.
pub open spec fn placeholder_list(backend: Backend, n: nat) -> Seq<char>
    decreases n,
{
    if n == 0 {
        Seq::empty()
    } else if n == 1 {
        placeholder(backend, 1)
    } else {
        placeholder_list(backend, (n - 1) as nat) + ", "@ + placeholder(backend, n)
    }
}

/// The comma-separated `name = placeholder` assignments of a SET clause,
/// with placeholders numbered by field position starting at 1.
pub open spec fn set_clause(fields: Seq<FieldValue>, backend: Backend) -> Seq<char>
    decreases fields.len(),
{
    if fields.len() == 0 {
        Seq::empty()
    } else if fields.len() == 1 {
        fields[0].name@ + " = "@ + placeholder(backend, 1)
    } else {
        set_clause(fields.drop_last(), backend) + ", "@ + fields.last().name@ + " = "@
            + placeholder(backend, fields.len())
    }
}

/// The values of the fields, in declared order.
pub open spec fn values_of(fields: Seq<FieldValue>) -> Seq<Value> {
    fields.map_values(|f: FieldValue| f.value)
}

/// The fields whose name is not the key field's name, in declared order.
pub open spec fn non_key_fields(fields: Seq<FieldValue>, pk_name: Seq<char>) -> Seq<
    FieldValue,
>
    decreases fields.len(),
{
    if fields.len() == 0 {
        Seq::empty()
    } else {
        non_key_fields(fields.drop_last(), pk_name) + (if fields.last().name@ != pk_name {
            seq![fields.last()]
        } else {
            Seq::empty()
        })
    }
}

proof fn lemma_column_list_step(s: Seq<FieldValue>, f: FieldValue)
    ensures
        column_list(s.push(f)) == if s.len() == 0 {
            f.name@
        } else {
            column_list(s) + ", "@ + f.name@
        },
{
    assert(s.push(f).drop_last() =~= s);
    assert(s.push(f).last() == f);
}

proof fn lemma_set_clause_step(s: Seq<FieldValue>, f: FieldValue, backend: Backend)
    ensures
        set_clause(s.push(f), backend) == if s.len() == 0 {
            f.name@ + " = "@ + placeholder(backend, 1)
        } else {
            set_clause(s, backend) + ", "@ + f.name@ + " = "@ + placeholder(backend, s.len() + 1)
        },
{
    assert(s.push(f).drop_last() =~= s);
    assert(s.push(f).last() == f);
}

proof fn lemma_non_key_step(s: Seq<FieldValue>, f: FieldValue, pk_name: Seq<char>)
    ensures
        non_key_fields(s.push(f), pk_name) == if f.name@ != pk_name {
            non_key_fields(s, pk_name).push(f)
        } else {
            non_key_fields(s, pk_name)
        },
{
    assert(s.push(f).drop_last() =~= s);
    assert(s.push(f).last() == f);
    if f.name@ != pk_name {
        assert(non_key_fields(s, pk_name) + seq![f] =~= non_key_fields(s, pk_name).push(f));
    } else {
        assert(non_key_fields(s, pk_name) + Seq::<FieldValue>::empty() =~= non_key_fields(
            s,
            pk_name,
        ));
    }
}

/// The text of a select over every row of `table`.
pub open spec fn select_all_sql(table: Seq<char>) -> Seq<char> {
    "SELECT * FROM "@ + table
}

/// The text of a select filtered by equality on one column.
pub open spec fn select_where_eq_sql(table: Seq<char>, column: Seq<char>, backend: Backend) -> Seq<
    char,
> {
    "SELECT * FROM "@ + table + " WHERE "@ + column + " = "@ + placeholder(backend, 1)
}

/// The text of a select filtered by an IN clause with `n` placeholders.
pub open spec fn filter_in_sql(table: Seq<char>, column: Seq<char>, backend: Backend, n: nat) -> Seq<
    char,
> {
    "SELECT * FROM "@ + table + " WHERE "@ + column + " IN ("@ + placeholder_list(backend, n)
        + ")"@
}

/// The text of an insert of every given field, one placeholder per field
/// in declared order.
pub open spec fn insert_sql(table: Seq<char>, fields: Seq<FieldValue>, backend: Backend) -> Seq<
    char,
> {
    "INSERT INTO "@ + table + " ("@ + column_list(fields) + ") VALUES ("@ + placeholder_list(
        backend,
        fields.len(),
    ) + ")"@
}

/// The text of an update: a SET clause over every non-key field, then a
/// WHERE clause on the key with the last placeholder.
pub open spec fn update_sql(
    table: Seq<char>,
    fields: Seq<FieldValue>,
    pk_name: Seq<char>,
    backend: Backend,
) -> Seq<char> {
    "UPDATE "@ + table + " SET "@ + set_clause(non_key_fields(fields, pk_name), backend)
        + " WHERE "@ + pk_name + " = "@ + placeholder(
        backend,
        non_key_fields(fields, pk_name).len() + 1,
    )
}

/// The text of a delete by key.
pub open spec fn delete_sql(table: Seq<char>, pk_name: Seq<char>, backend: Backend) -> Seq<char> {
    "DELETE FROM "@ + table + " WHERE "@ + pk_name + " = "@ + placeholder(backend, 1)
}

/// Builds the select over every row of `table`; it binds no parameter.
pub fn select_all(table: &String, backend: Backend) -> (r: Statement)
    ensures
        r.sql@ == select_all_sql(table@),
        r.params.backend == backend,
        r.params.values@ == Seq::<Value>::empty(),
{
    let mut sql = String::from_str("SELECT * FROM ");
    sql.append(table.as_str());
    Statement { sql, params: QueryParameterSet { backend, values: Vec::new() } }
}

/// Builds the select of the row whose key column equals the given key;
/// one placeholder, bound to the key value.
pub fn select_by_primary_key<K: PrimaryKey>(
    table: &String,
    pk_field_name: &String,
    pk_value: K,
    backend: Backend,
) -> (r: Statement)
    ensures
        r.sql@ == select_where_eq_sql(table@, pk_field_name@, backend),
        r.params.backend == backend,
        r.params.values@ == seq![pk_value.to_value()],
{
    let mut sql = String::from_str("SELECT * FROM ");
    sql.append(table.as_str());
    sql.append(" WHERE ");
    sql.append(pk_field_name.as_str());
    sql.append(" = ");
    push_placeholder(&mut sql, backend, 1);
    let mut values: Vec<Value> = Vec::new();
    values.push(pk_value.wrap());
    proof {
        assert(sql@ =~= select_where_eq_sql(table@, pk_field_name@, backend));
        assert(values@ =~= seq![pk_value.to_value()]);
    }
    Statement { sql, params: QueryParameterSet { backend, values } }
}

/// Builds the select filtered by equality on one column; one placeholder,
/// bound to the comparison value.
pub fn filter_equals<V: QueryParameters>(
    table: &String,
    field_name: &String,
    value: V,
    backend: Backend,
) -> (r: Statement)
    ensures
        r.sql@ == select_where_eq_sql(table@, field_name@, backend),
        r.params.backend == backend,
        r.params.values@ == seq![value.to_value()],
{
    let mut sql = String::from_str("SELECT * FROM ");
    sql.append(table.as_str());
    sql.append(" WHERE ");
    sql.append(field_name.as_str());
    sql.append(" = ");
    push_placeholder(&mut sql, backend, 1);
    let mut values: Vec<Value> = Vec::new();
    values.push(value.wrap());
    proof {
        assert(sql@ =~= select_where_eq_sql(table@, field_name@, backend));
        assert(values@ =~= seq![value.to_value()]);
    }
    Statement { sql, params: QueryParameterSet { backend, values } }
}

/// Builds the select filtered by an IN clause over the given values, in
/// their given order; fails with [`CanyonError::EmptyInClause`] exactly
/// when no value is given.
pub fn filter_in<V: InClauseValues>(
    table: &String,
    field_name: &String,
    values: Vec<V>,
    backend: Backend,
) -> (r: Result<Statement, CanyonError>)
    ensures
        match r {
            Err(e) => e == CanyonError::EmptyInClause && values@.len() == 0,
            Ok(st) => {
                &&& values@.len() > 0
                &&& st.sql@ == filter_in_sql(table@, field_name@, backend, values@.len())
                &&& st.params.backend == backend
                &&& st.params.values@ == values@.map_values(|x: V| x.to_value())
            },
        },
{
    if values.len() == 0 {
        return Err(CanyonError::EmptyInClause);
    }
    let ghost orig = values@;
    let mut rest = values;
    let total: usize = rest.len();
    let mut phs = String::new();
    let mut bound: Vec<Value> = Vec::new();
    let mut k: usize = 0;
    while rest.len() > 0
        invariant
            orig.len() == total,
            k + rest@.len() == orig.len(),
            rest@ == orig.skip(k as int),
            bound@ == orig.take(k as int).map_values(|x: V| x.to_value()),
            phs@ == placeholder_list(backend, k as nat),
        decreases rest@.len(),
    {
        if k > 0 {
            phs.append(", ");
        }
        let x = rest.remove(0);
        proof {
            assert(orig.skip(k as int).remove(0) =~= orig.skip(k as int + 1));
            assert(x == orig[k as int]);
        }
        bound.push(x.wrap());
        push_placeholder(&mut phs, backend, k + 1);
        proof {
            assert(orig.take(k as int).push(orig[k as int]) =~= orig.take(k as int + 1));
            assert(bound@ =~= orig.take(k as int + 1).map_values(|x: V| x.to_value()));
            assert(phs@ =~= placeholder_list(backend, (k + 1) as nat));
        }
        k += 1;
    }
    let mut sql = String::from_str("SELECT * FROM ");
    sql.append(table.as_str());
    sql.append(" WHERE ");
    sql.append(field_name.as_str());
    sql.append(" IN (");
    sql.append(phs.as_str());
    sql.append(")");
    proof {
        assert(orig.take(orig.len() as int) =~= orig);
        assert(sql@ =~= filter_in_sql(table@, field_name@, backend, orig.len()));
    }
    Ok(Statement { sql, params: QueryParameterSet { backend, values: bound } })
}

/// Builds the insert of every given field into `table`: one placeholder
/// per field and a parameter set holding the field values, both in
/// declared field order.
pub fn insert(table: &String, fields: &Vec<FieldValue>, backend: Backend) -> (r:
    Statement)
    ensures
        r.sql@ == insert_sql(table@, fields@, backend),
        r.params.backend == backend,
        r.params.values@ == values_of(fields@),
{
    let mut cols = String::new();
    let mut phs = String::new();
    let mut values: Vec<Value> = Vec::new();
    let mut i: usize = 0;
    while i < fields.len()
        invariant
            i <= fields@.len(),
            cols@ == column_list(fields@.take(i as int)),
            phs@ == placeholder_list(backend, i as nat),
            values@ == values_of(fields@.take(i as int)),
        decreases fields@.len() - i,
    {
        if i > 0 {
            cols.append(", ");
            phs.append(", ");
        }
        cols.append(fields[i].name.as_str());
        push_placeholder(&mut phs, backend, i + 1);
        values.push(fields[i].value.clone());
        proof {
            let t0 = fields@.take(i as int);
            let t1 = fields@.take(i as int + 1);
            assert(t0.push(fields@[i as int]) =~= t1);
            lemma_column_list_step(t0, fields@[i as int]);
            assert(cols@ =~= column_list(t1));
            assert(phs@ =~= placeholder_list(backend, (i + 1) as nat));
            assert(values@ =~= values_of(t1));
        }
        i += 1;
    }
    let mut sql = String::from_str("INSERT INTO ");
    sql.append(table.as_str());
    sql.append(" (");
    sql.append(cols.as_str());
    sql.append(") VALUES (");
    sql.append(phs.as_str());
    sql.append(")");
    proof {
        assert(fields@.take(fields@.len() as int) =~= fields@);
        assert(sql@ =~= insert_sql(table@, fields@, backend));
    }
    Statement { sql, params: QueryParameterSet { backend, values } }
}

/// Builds the update of every non-key field of `table`, keyed by the
/// given key column and value: a SET clause with one placeholder per
/// non-key field, then a WHERE clause whose placeholder is the last, bound
/// to the key value after the field values.
pub fn update<K: PrimaryKey>(
    table: &String,
    fields: &Vec<FieldValue>,
    pk_field_name: &String,
    pk_value: K,
    backend: Backend,
) -> (r: Statement)
    requires
        fields@.len() < usize::MAX,
    ensures
        r.sql@ == update_sql(table@, fields@, pk_field_name@, backend),
        r.params.backend == backend,
        r.params.values@ == values_of(non_key_fields(fields@, pk_field_name@)).push(
            pk_value.to_value(),
        ),
{
    let mut kept: Vec<FieldValue> = Vec::new();
    let mut i: usize = 0;
    while i < fields.len()
        invariant
            i <= fields@.len(),
            fields@.len() < usize::MAX,
            kept@ == non_key_fields(fields@.take(i as int), pk_field_name@),
            kept@.len() <= i,
        decreases fields@.len() - i,
    {
        if !(fields[i].name == *pk_field_name) {
            kept.push(fields[i].clone());
        }
        proof {
            let t0 = fields@.take(i as int);
            let t1 = fields@.take(i as int + 1);
            assert(t0.push(fields@[i as int]) =~= t1);
            lemma_non_key_step(t0, fields@[i as int], pk_field_name@);
        }
        i += 1;
    }
    proof {
        assert(fields@.take(fields@.len() as int) =~= fields@);
    }
    let mut setc = String::new();
    let mut values: Vec<Value> = Vec::new();
    let mut j: usize = 0;
    while j < kept.len()
        invariant
            j <= kept@.len(),
            kept@.len() < usize::MAX,
            kept@ == non_key_fields(fields@, pk_field_name@),
            setc@ == set_clause(kept@.take(j as int), backend),
            values@ == values_of(kept@.take(j as int)),
        decreases kept@.len() - j,
    {
        if j > 0 {
            setc.append(", ");
        }
        setc.append(kept[j].name.as_str());
        setc.append(" = ");
        push_placeholder(&mut setc, backend, j + 1);
        values.push(kept[j].value.clone());
        proof {
            let t0 = kept@.take(j as int);
            let t1 = kept@.take(j as int + 1);
            assert(t0.push(kept@[j as int]) =~= t1);
            lemma_set_clause_step(t0, kept@[j as int], backend);
            assert(setc@ =~= set_clause(t1, backend));
            assert(values@ =~= values_of(t1));
        }
        j += 1;
    }
    proof {
        assert(kept@.take(kept@.len() as int) =~= kept@);
    }
    let mut sql = String::from_str("UPDATE ");
    sql.append(table.as_str());
    sql.append(" SET ");
    sql.append(setc.as_str());
    sql.append(" WHERE ");
    sql.append(pk_field_name.as_str());
    sql.append(" = ");
    push_placeholder(&mut sql, backend, kept.len() + 1);
    values.push(pk_value.wrap());
    proof {
        assert(sql@ =~= update_sql(table@, fields@, pk_field_name@, backend));
    }
    Statement { sql, params: QueryParameterSet { backend, values } }
}

/// Builds the delete of the row whose key column equals the given key;
/// one placeholder, bound to the key value.
pub fn delete<K: PrimaryKey>(
    table: &String,
    pk_field_name: &String,
    pk_value: K,
    backend: Backend,
) -> (r: Statement)
    ensures
        r.sql@ == delete_sql(table@, pk_field_name@, backend),
        r.params.backend == backend,
        r.params.values@ == seq![pk_value.to_value()],
{
    let mut sql = String::from_str("DELETE FROM ");
    sql.append(table.as_str());
    sql.append(" WHERE ");
    sql.append(pk_field_name.as_str());
    sql.append(" = ");
    push_placeholder(&mut sql, backend, 1);
    let mut values: Vec<Value> = Vec::new();
    values.push(pk_value.wrap());
    proof {
        assert(sql@ =~= delete_sql(table@, pk_field_name@, backend));
        assert(values@ =~= seq![pk_value.to_value()]);
    }
    Statement { sql, params: QueryParameterSet { backend, values } }
}

} // verus!
