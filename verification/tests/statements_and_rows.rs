use canyon_crud::backend::{
    backend_kind_of, from_backend_representation, to_backend_representation, Backend, BackendValue,
};
use canyon_crud::fields::{Entity, FieldId, FieldIdentifier, FieldValue, FieldValueIdentifier};
use canyon_crud::registry::{EntityDescriptor, FieldMeta};
use canyon_crud::row::{map_row, Column, Row};
use canyon_crud::sql;
use canyon_crud::value::{Value, ValueKind};
use canyon_crud::CanyonError;

fn fv(name: &str, value: Value) -> FieldValue {
    FieldValue { name: String::from(name), value }
}

#[test]
fn select_all_binds_nothing() {
    let st = sql::select_all(&String::from("league_table"), Backend::Postgres);
    assert_eq!(st.sql, "SELECT * FROM league_table");
    assert_eq!(st.params.values, vec![]);
    assert_eq!(st.params.backend, Backend::Postgres);
}

#[test]
fn select_by_primary_key_binds_the_key() {
    let st = sql::select_by_primary_key(
        &String::from("league"),
        &String::from("id"),
        7i32,
        Backend::Postgres,
    );
    assert_eq!(st.sql, "SELECT * FROM league WHERE id = $1");
    assert_eq!(st.params.values, vec![Value::I32(7)]);
}

#[test]
fn delete_uses_backend_placeholder_syntax() {
    let st = sql::delete(
        &String::from("league"),
        &String::from("id"),
        9i64,
        Backend::SqlServer,
    );
    assert_eq!(st.sql, "DELETE FROM league WHERE id = @p1");
    assert_eq!(st.params.values, vec![Value::I64(9)]);
}

#[test]
fn filter_equals_binds_the_comparison_value() {
    let st = sql::filter_equals(
        &String::from("league"),
        &String::from("name"),
        String::from("LEC"),
        Backend::SqlServer,
    );
    assert_eq!(st.sql, "SELECT * FROM league WHERE name = @p1");
    assert_eq!(st.params.values, vec![Value::Text(String::from("LEC"))]);
}

#[test]
fn filter_in_rejects_an_empty_value_list() {
    let none: Vec<i32> = vec![];
    assert_eq!(
        sql::filter_in(&String::from("league"), &String::from("id"), none, Backend::Postgres),
        Err(CanyonError::EmptyInClause)
    );
}

#[test]
fn filter_in_numbers_placeholders_in_order() {
    let st = sql::filter_in(
        &String::from("league"),
        &String::from("id"),
        vec![1i32, 2i32, 3i32],
        Backend::Postgres,
    )
    .unwrap();
    assert_eq!(st.sql, "SELECT * FROM league WHERE id IN ($1, $2, $3)");
    assert_eq!(st.params.values, vec![Value::I32(1), Value::I32(2), Value::I32(3)]);

    let st = sql::filter_in(
        &String::from("league"),
        &String::from("id"),
        vec![1i32, 2i32, 3i32],
        Backend::SqlServer,
    )
    .unwrap();
    assert_eq!(st.sql, "SELECT * FROM league WHERE id IN (@p1, @p2, @p3)");
}

#[test]
fn insert_binds_every_field_in_declared_order() {
    let fields = vec![fv("id", Value::I32(7)), fv("name", Value::Text(String::from("Foo")))];
    let st = sql::insert(&String::from("league"), &fields, Backend::Postgres);
    assert_eq!(st.sql, "INSERT INTO league (id, name) VALUES ($1, $2)");
    assert_eq!(
        st.params.values,
        vec![Value::I32(7), Value::Text(String::from("Foo"))]
    );
}

#[test]
fn placeholders_past_nine_render_both_digits() {
    let fields: Vec<FieldValue> =
        (0..12).map(|i| fv(&format!("c{}", i), Value::I32(i))).collect();
    let st = sql::insert(&String::from("wide"), &fields, Backend::Postgres);
    assert!(st.sql.ends_with("$10, $11, $12)"));
    assert_eq!(st.params.values.len(), 12);
}

#[test]
fn update_sets_every_non_key_field_and_keys_the_where_clause() {
    let fields = vec![
        fv("id", Value::I32(7)),
        fv("name", Value::Text(String::from("Foo"))),
        fv("age", Value::I16(3)),
    ];
    let st = sql::update(
        &String::from("league"),
        &fields,
        &String::from("id"),
        7i32,
        Backend::Postgres,
    );
    assert_eq!(st.sql, "UPDATE league SET name = $1, age = $2 WHERE id = $3");
    assert_eq!(
        st.params.values,
        vec![Value::Text(String::from("Foo")), Value::I16(3), Value::I32(7)]
    );
}

#[test]
fn backend_conversion_is_backend_specific_for_unsigned_bytes() {
    assert_eq!(
        to_backend_representation(Value::U8(5), Backend::Postgres),
        BackendValue::SmallInt(5)
    );
    assert_eq!(
        to_backend_representation(Value::U8(5), Backend::SqlServer),
        BackendValue::TinyInt(5)
    );
}

#[test]
fn backend_conversion_is_lossless_on_wide_integers_and_text() {
    assert_eq!(
        to_backend_representation(Value::I64(i64::MIN), Backend::Postgres),
        BackendValue::BigInt(i64::MIN)
    );
    assert_eq!(
        to_backend_representation(Value::U64(u64::MAX), Backend::SqlServer),
        BackendValue::UnsignedBigInt(u64::MAX)
    );
    assert_eq!(
        to_backend_representation(Value::Text(String::from("héllo")), Backend::Postgres),
        BackendValue::Varchar(String::from("héllo"))
    );
}

#[test]
fn reading_back_narrows_with_range_checks() {
    assert_eq!(
        from_backend_representation(&BackendValue::SmallInt(200), ValueKind::UInt8),
        Some(Value::U8(200))
    );
    assert_eq!(
        from_backend_representation(&BackendValue::SmallInt(300), ValueKind::UInt8),
        None
    );
    assert_eq!(
        from_backend_representation(&BackendValue::SmallInt(-1), ValueKind::Int8),
        Some(Value::I8(-1))
    );
    assert_eq!(
        from_backend_representation(&BackendValue::Varchar(String::from("x")), ValueKind::Int32),
        None
    );
    assert_eq!(backend_kind_of(&BackendValue::Varchar(String::new())), ValueKind::Text);
}

#[test]
fn field_identifiers_compare_by_position_not_name() {
    let a = FieldId { pos: 0, name: String::from("id") };
    let b = FieldId { pos: 0, name: String::from("renamed") };
    let c = FieldId { pos: 1, name: String::from("id") };
    assert!(a == b);
    assert!(a != c);
    assert!(a < c);
    assert!(c > b);
}

#[test]
fn field_views_report_names_and_values() {
    let id = FieldId { pos: 0, name: String::from("id") };
    assert_eq!(id.field_name_as_str(), "id");
    let f = fv("name", Value::Text(String::from("Foo")));
    let (n, v) = f.value();
    assert_eq!(n, "name");
    assert_eq!(v, &Value::Text(String::from("Foo")));
}

#[test]
fn reading_back_checks_the_unsigned_four_byte_range() {
    assert_eq!(
        from_backend_representation(&BackendValue::BigInt(4294967295), ValueKind::UInt32),
        Some(Value::U32(u32::MAX))
    );
    assert_eq!(
        from_backend_representation(&BackendValue::BigInt(4294967296), ValueKind::UInt32),
        None
    );
    assert_eq!(
        from_backend_representation(&BackendValue::BigInt(-1), ValueKind::UInt32),
        None
    );
}

#[test]
fn entity_views_agree_in_length_and_order() {
    let e = Entity {
        fields: vec![fv("id", Value::I32(1)), fv("label", Value::Text(String::from("x")))],
    };
    let ids = e.field_identifiers();
    let vals = e.field_values();
    assert_eq!(ids.len(), 2);
    assert_eq!(vals.len(), 2);
    assert_eq!(ids[0].pos, 0);
    assert_eq!(ids[1].pos, 1);
    assert_eq!(ids[0].name, vals[0].name);
    assert_eq!(ids[1].name, vals[1].name);
    assert_eq!(vals, e.fields);
}

fn league_descriptor() -> EntityDescriptor {
    EntityDescriptor {
        entity_name: String::from("League"),
        table_name: String::from("league"),
        fields: vec![
            FieldMeta { name: String::from("id"), kind: ValueKind::Int32 },
            FieldMeta { name: String::from("name"), kind: ValueKind::Text },
        ],
    }
}

#[test]
fn map_row_fails_on_a_missing_column() {
    let row = Row { columns: vec![Column { name: String::from("id"), value: BackendValue::Int(7) }] };
    assert_eq!(
        map_row(&row, &league_descriptor()),
        Err(CanyonError::MissingColumn(String::from("name")))
    );
}

#[test]
fn map_row_fails_on_a_mismatched_cell() {
    let row = Row {
        columns: vec![
            Column { name: String::from("id"), value: BackendValue::Int(7) },
            Column { name: String::from("name"), value: BackendValue::Int(5) },
        ],
    };
    assert_eq!(
        map_row(&row, &league_descriptor()),
        Err(CanyonError::ColumnTypeMismatch {
            column: String::from("name"),
            expected: ValueKind::Text,
            actual: ValueKind::Int32,
        })
    );
}

#[test]
fn map_row_reconstructs_the_whole_entity() {
    let row = Row {
        columns: vec![
            Column { name: String::from("name"), value: BackendValue::Varchar(String::from("Foo")) },
            Column { name: String::from("id"), value: BackendValue::Int(7) },
        ],
    };
    let e = map_row(&row, &league_descriptor()).unwrap();
    assert_eq!(
        e.fields,
        vec![fv("id", Value::I32(7)), fv("name", Value::Text(String::from("Foo")))]
    );
}

#[test]
fn insert_then_map_row_round_trips_the_entity() {
    let mut reg = canyon_crud::registry::EntityRegistry::new();
    reg.register(
        String::from("League"),
        None,
        vec![
            FieldMeta { name: String::from("id"), kind: ValueKind::Int32 },
            FieldMeta { name: String::from("label"), kind: ValueKind::Text },
        ],
        false,
    )
    .unwrap();
    let table = reg.table_name_for(&String::from("League")).unwrap();
    let entity = Entity {
        fields: vec![fv("id", Value::I32(7)), fv("label", Value::Text(String::from("Foo")))],
    };

    let st = sql::insert(&table, &entity.fields, Backend::Postgres);
    assert_eq!(st.sql, "INSERT INTO league (id, label) VALUES ($1, $2)");

    // the row a backend would hand back: the bound parameters, one column
    // per declared field, in wire representation
    let descriptor = reg.lookup(&String::from("League")).unwrap();
    let mut columns = Vec::new();
    for (meta, value) in descriptor.fields.iter().zip(st.params.values.into_iter()) {
        columns.push(Column {
            name: meta.name.clone(),
            value: to_backend_representation(value, Backend::Postgres),
        });
    }
    let mapped = map_row(&Row { columns }, descriptor).unwrap();
    assert_eq!(mapped, entity);
}
