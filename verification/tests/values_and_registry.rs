use canyon_crud::registry::{EntityDescriptor, EntityRegistry, FieldMeta};
use canyon_crud::value::{Date, DateTime, QueryParameters, Time, Value, ValueKind};
use canyon_crud::CanyonError;

#[test]
fn wrap_unwrap_round_trip_integers() {
    assert_eq!(i32::unwrap_as(7i32.wrap()), Ok(7i32));
    assert_eq!(i64::unwrap_as((-9i64).wrap()), Ok(-9i64));
    assert_eq!(u8::unwrap_as(255u8.wrap()), Ok(255u8));
    assert_eq!(u64::unwrap_as(u64::MAX.wrap()), Ok(u64::MAX));
    assert_eq!(i16::unwrap_as(i16::MIN.wrap()), Ok(i16::MIN));
}

#[test]
fn wrap_unwrap_round_trip_text_and_dates() {
    let s = String::from("héllo wörld");
    assert_eq!(String::unwrap_as(s.clone().wrap()), Ok(s));
    let d = Date::new(2024, 2, 29).unwrap();
    assert_eq!(Date::unwrap_as(d.wrap()), Ok(d));
    let t = Time::new(23, 59, 59).unwrap();
    assert_eq!(Time::unwrap_as(t.wrap()), Ok(t));
    let dt = DateTime::new(d, t).unwrap();
    assert_eq!(DateTime::unwrap_as(dt.wrap()), Ok(dt));
}

#[test]
fn unwrap_mismatch_reports_both_kinds() {
    assert_eq!(
        i64::unwrap_as(Value::I32(7)),
        Err(CanyonError::TypeMismatch { expected: ValueKind::Int64, actual: ValueKind::Int32 })
    );
    assert_eq!(
        String::unwrap_as(Value::U8(1)),
        Err(CanyonError::TypeMismatch { expected: ValueKind::Text, actual: ValueKind::UInt8 })
    );
    assert_eq!(
        Date::unwrap_as(Value::Text(String::from("2024-01-01"))),
        Err(CanyonError::TypeMismatch { expected: ValueKind::Date, actual: ValueKind::Text })
    );
}

#[test]
fn value_kind_reports_active_variant() {
    assert_eq!(Value::I8(-1).kind(), ValueKind::Int8);
    assert_eq!(Value::Text(String::new()).kind(), ValueKind::Text);
    assert_eq!(Value::U32(9).kind(), ValueKind::UInt32);
}

#[test]
fn date_validity_follows_the_calendar() {
    assert!(Date::new(2024, 2, 29).is_some());
    assert!(Date::new(2023, 2, 29).is_none());
    assert!(Date::new(1900, 2, 29).is_none());
    assert!(Date::new(2000, 2, 29).is_some());
    assert!(Date::new(2024, 4, 31).is_none());
    assert!(Date::new(2024, 12, 31).is_some());
    assert!(Date::new(0, 1, 1).is_none());
    assert!(Date::new(2024, 0, 1).is_none());
    assert!(Date::new(2024, 1, 0).is_none());
}

#[test]
fn time_validity() {
    assert!(Time::new(23, 59, 59).is_some());
    assert!(Time::new(24, 0, 0).is_none());
    assert!(Time::new(0, 60, 0).is_none());
    assert!(Time::new(0, 0, 60).is_none());
}

#[test]
fn snake_case_transform() {
    assert_eq!(
        canyon_crud::registry::snake_case(&String::from("LeagueTable")),
        "league_table"
    );
    assert_eq!(
        canyon_crud::registry::snake_case(&String::from("HTTPServer2")),
        "h_t_t_p_server2"
    );
    assert_eq!(canyon_crud::registry::snake_case(&String::from("user")), "user");
    assert_eq!(canyon_crud::registry::snake_case(&String::from("X")), "x");
    assert_eq!(canyon_crud::registry::snake_case(&String::from("")), "");
}

fn league_fields() -> Vec<FieldMeta> {
    vec![
        FieldMeta { name: String::from("id"), kind: ValueKind::Int32 },
        FieldMeta { name: String::from("name"), kind: ValueKind::Text },
    ]
}

#[test]
fn register_derives_table_name_by_snake_case() {
    let mut reg = EntityRegistry::new();
    assert_eq!(
        reg.register(String::from("LeagueTable"), None, league_fields(), false),
        Ok(())
    );
    assert_eq!(
        reg.table_name_for(&String::from("LeagueTable")),
        Ok(String::from("league_table"))
    );
    let d: &EntityDescriptor = reg.lookup(&String::from("LeagueTable")).unwrap();
    assert_eq!(d.entity_name, "LeagueTable");
    assert_eq!(d.table_name, "league_table");
    assert_eq!(d.fields, league_fields());
}

#[test]
fn register_with_override_keeps_the_override() {
    let mut reg = EntityRegistry::new();
    reg.register(
        String::from("League"),
        Some(String::from("legacy_leagues")),
        league_fields(),
        false,
    )
    .unwrap();
    assert_eq!(
        reg.table_name_for(&String::from("League")),
        Ok(String::from("legacy_leagues"))
    );
}

#[test]
fn lookup_miss_is_unknown_entity() {
    let reg = EntityRegistry::new();
    assert!(reg.lookup(&String::from("Nobody")).is_none());
    assert_eq!(
        reg.table_name_for(&String::from("Nobody")),
        Err(CanyonError::UnknownEntity)
    );
}

#[test]
fn strict_re_registration_is_rejected_and_changes_nothing() {
    let mut reg = EntityRegistry::new();
    reg.register(String::from("League"), None, league_fields(), false).unwrap();
    assert_eq!(
        reg.register(
            String::from("League"),
            Some(String::from("other")),
            league_fields(),
            true
        ),
        Err(CanyonError::DuplicateRegistration)
    );
    assert_eq!(reg.table_name_for(&String::from("League")), Ok(String::from("league")));
}

#[test]
fn default_re_registration_overwrites_silently() {
    let mut reg = EntityRegistry::new();
    reg.register(String::from("League"), None, league_fields(), false).unwrap();
    reg.register(String::from("League"), Some(String::from("other")), vec![], false).unwrap();
    assert_eq!(reg.table_name_for(&String::from("League")), Ok(String::from("other")));
    assert_eq!(reg.lookup(&String::from("League")).unwrap().fields, vec![]);
}

#[test]
fn re_registration_leaves_other_entities_alone() {
    let mut reg = EntityRegistry::new();
    reg.register(String::from("League"), None, league_fields(), false).unwrap();
    reg.register(String::from("Team"), None, vec![], false).unwrap();
    reg.register(String::from("League"), Some(String::from("l2")), vec![], false).unwrap();
    assert_eq!(reg.table_name_for(&String::from("Team")), Ok(String::from("team")));
    assert_eq!(reg.table_name_for(&String::from("League")), Ok(String::from("l2")));
}
