use cloud_datastore_rs::{
    ArrayValue, Entity, EntityBuilder, IdType, Key, PathElement, Timestamp, UnixDateTime, Value,
    ValueType,
};

fn strings(texts: &[&str]) -> Vec<String> {
    texts.iter().map(|t| t.to_string()).collect()
}

fn value_of(value_type: ValueType) -> Value {
    Value { value_type: Some(value_type), meaning: 0, exclude_from_indexes: false }
}

#[test]
fn req_string_on_a_missing_field_fails() {
    let entity = Entity::builder().add_string("title", "Hi", true).build();
    let error = entity.req_string("author").unwrap_err();
    assert_eq!(error.to_string(), "missing required field");
    assert_eq!(Entity::new().req_string("title").unwrap_err().to_string(), "missing required field");
}

#[test]
fn opt_string_on_a_missing_field_is_absent() {
    let entity = Entity::builder().add_string("title", "Hi", true).build();
    assert_eq!(entity.opt_string("author").unwrap(), None);
    assert_eq!(Entity::new().opt_string("title").unwrap(), None);
}

#[test]
fn string_is_read_back() {
    let entity = Entity::builder().add_string("title", "Hi", true).build();
    assert_eq!(entity.req_string("title").unwrap(), "Hi");
    assert_eq!(entity.opt_string("title").unwrap(), Some("Hi".to_string()));
}

#[test]
fn string_getter_refuses_another_variant() {
    let entity = Entity::builder().add_bool("title", true, true).build();
    assert_eq!(entity.opt_string("title").unwrap_err().to_string(), "Field title is not a string");
    assert_eq!(entity.req_string("title").unwrap_err().to_string(), "Field title is not a string");
}

#[test]
fn string_getter_refuses_a_value_without_variant() {
    let entity = Entity::new().with_property("title".to_string(), Value::default());
    assert_eq!(entity.opt_string("title").unwrap_err().to_string(), "Field title is not a string");
}

#[test]
fn bool_is_read_back() {
    let entity = Entity::builder().add_bool("read", true, true).add_bool("lent", false, true).build();
    assert_eq!(entity.req_bool("read").unwrap(), true);
    assert_eq!(entity.opt_bool("lent").unwrap(), Some(false));
    assert_eq!(entity.opt_bool("sold").unwrap(), None);
}

#[test]
fn bool_getter_reports_absence_and_mismatch() {
    let entity = Entity::builder().add_string("read", "yes", true).build();
    assert_eq!(entity.req_bool("lent").unwrap_err().to_string(), "missing required field");
    assert_eq!(entity.opt_bool("read").unwrap_err().to_string(), "Field read is not a boolean");
    assert_eq!(entity.req_bool("read").unwrap_err().to_string(), "Field read is not a boolean");
}

#[test]
fn date_time_is_read_back_at_its_second() {
    let at = UnixDateTime::from_unix_timestamp(1_546_300_800).unwrap();
    let entity = Entity::builder().add_offset_date_time("printed", at, true).build();
    assert_eq!(entity.req_offset_date_time("printed").unwrap(), at);
    assert_eq!(entity.opt_offset_date_time("printed").unwrap().unwrap().unix_timestamp(), 1_546_300_800);
    match &entity.property("printed").unwrap().value_type {
        Some(ValueType::TimestampValue(ts)) => {
            assert_eq!(*ts, Timestamp { seconds: 1_546_300_800, nanos: 0 })
        }
        other => panic!("not a timestamp: {:?}", other),
    }
}

#[test]
fn date_time_getter_drops_the_nanoseconds() {
    let stored = value_of(ValueType::TimestampValue(Timestamp { seconds: 12, nanos: 999_999_999 }));
    let entity = Entity::new().with_property("at".to_string(), stored);
    assert_eq!(entity.req_offset_date_time("at").unwrap().unix_timestamp(), 12);
}

#[test]
fn date_time_getter_reports_absence_and_mismatch() {
    let entity = Entity::builder().add_string("printed", "2019", true).build();
    assert_eq!(entity.opt_offset_date_time("sold").unwrap(), None);
    assert_eq!(entity.req_offset_date_time("sold").unwrap_err().to_string(), "missing required field");
    assert_eq!(
        entity.opt_offset_date_time("printed").unwrap_err().to_string(),
        "Field printed is not a Timestamp"
    );
    assert_eq!(
        entity.req_offset_date_time("printed").unwrap_err().to_string(),
        "Field printed is not a Timestamp"
    );
}

#[test]
fn timestamp_beyond_the_calendar_counts_as_absent() {
    let far = value_of(ValueType::TimestampValue(Timestamp { seconds: 253_402_300_800, nanos: 0 }));
    let entity = Entity::new().with_property("at".to_string(), far);
    assert_eq!(entity.opt_offset_date_time("at").unwrap(), None);
    assert_eq!(entity.req_offset_date_time("at").unwrap_err().to_string(), "missing required field");
}

#[test]
fn string_array_is_read_back() {
    let entity = Entity::builder().add_string_array("tags", strings(&["a", "b", "c"])).build();
    assert_eq!(entity.req_string_array("tags").unwrap(), strings(&["a", "b", "c"]));
    assert_eq!(entity.opt_string_array("tags").unwrap(), Some(strings(&["a", "b", "c"])));
}

#[test]
fn empty_string_array_is_read_back() {
    let entity = Entity::builder().add_string_array("tags", vec![]).build();
    assert_eq!(entity.req_string_array("tags").unwrap(), Vec::<String>::new());
}

#[test]
fn string_array_with_one_other_element_fails_as_a_whole() {
    let mixed = ArrayValue {
        values: vec![
            value_of(ValueType::StringValue("a".to_string())),
            value_of(ValueType::IntegerValue(2)),
            value_of(ValueType::StringValue("c".to_string())),
        ],
    };
    let entity = Entity::builder().add_value("tags", ValueType::ArrayValue(mixed), true).build();
    assert_eq!(entity.req_string_array("tags").unwrap_err().to_string(), "Field tags is not a string");
    assert_eq!(entity.opt_string_array("tags").unwrap_err().to_string(), "Field tags is not a string");
}

#[test]
fn string_array_with_an_element_without_variant_fails() {
    let holes = ArrayValue { values: vec![Value::default()] };
    let entity = Entity::builder().add_value("tags", ValueType::ArrayValue(holes), true).build();
    assert_eq!(entity.opt_string_array("tags").unwrap_err().to_string(), "Field tags is not a string");
}

#[test]
fn string_array_getter_refuses_another_variant() {
    let entity = Entity::builder().add_string("tags", "a", true).build();
    assert_eq!(entity.opt_string_array("tags").unwrap_err().to_string(), "Field tags is not an array");
    assert_eq!(entity.req_string_array("tags").unwrap_err().to_string(), "Field tags is not an array");
}

#[test]
fn string_array_getter_reports_absence() {
    let entity = Entity::new().with_property("blank".to_string(), Value::default());
    assert_eq!(entity.opt_string_array("tags").unwrap(), None);
    assert_eq!(
        entity.req_string_array("tags").unwrap_err().to_string(),
        "Entity missing required field 'tags'"
    );
}

#[test]
fn string_array_getter_refuses_a_value_without_variant() {
    let entity = Entity::new().with_property("blank".to_string(), Value::default());
    assert_eq!(
        entity.opt_string_array("blank").unwrap_err().to_string(),
        "Field blank is not an array"
    );
    assert_eq!(
        entity.req_string_array("blank").unwrap_err().to_string(),
        "Field blank is not an array"
    );
}

#[test]
fn req_key_gives_the_key_of_the_expected_kind() {
    let entity = Entity::builder().with_key_name("Book", "b1").build();
    let key = entity.req_key("Book").unwrap();
    assert_eq!(*key, Key::named("Book", "b1"));
    assert_eq!(key.name().unwrap(), "b1");
}

#[test]
fn req_key_refuses_another_kind() {
    let entity = Entity::builder().with_key_name("Movie", "m1").build();
    let error = entity.req_key("Book").unwrap_err();
    assert_eq!(error.to_string(), "Invalid Key Kind. Expected 'Book'.");
}

#[test]
fn req_key_needs_a_key_with_a_path() {
    assert_eq!(Entity::new().req_key("Book").unwrap_err().to_string(), "Missing Key");
    let entity = Entity::builder().with_key(Key { partition_id: None, path: vec![] }).build();
    assert_eq!(entity.req_key("Book").unwrap_err().to_string(), "Key has no path");
}

#[test]
fn req_key_accepts_a_numeric_id() {
    let key = Key { partition_id: None, path: vec![PathElement { kind: "Book".to_string(), id_type: Some(IdType::Id(9)) }] };
    let entity = Entity::builder().with_key(key.clone()).build();
    assert_eq!(*entity.req_key("Book").unwrap(), key);
}

#[test]
fn not_indexed_sets_the_exclusion_flag() {
    let entity = Entity::builder().add_string("t", "x", false).build();
    let stored = entity.property("t").unwrap();
    assert!(stored.exclude_from_indexes);
    assert!(matches!(&stored.value_type, Some(ValueType::StringValue(s)) if s == "x"));
    assert_eq!(stored.meaning, 0);
}

#[test]
fn indexed_clears_the_exclusion_flag() {
    let entity = Entity::builder().add_string("t", "x", true).build();
    assert!(!entity.property("t").unwrap().exclude_from_indexes);
}

#[test]
fn string_array_is_stored_indexed() {
    let entity = Entity::builder().add_string_array("tags", strings(&["a"])).build();
    let stored = entity.property("tags").unwrap();
    assert!(!stored.exclude_from_indexes);
    match &stored.value_type {
        Some(ValueType::ArrayValue(array)) => {
            assert_eq!(array.values.len(), 1);
            assert!(!array.values[0].exclude_from_indexes);
        }
        other => panic!("not an array: {:?}", other),
    }
}

#[test]
fn later_write_under_a_name_wins() {
    let entity = EntityBuilder::new()
        .add_string("title", "first", true)
        .add_bool("read", true, true)
        .add_string("title", "second", false)
        .build();
    assert_eq!(entity.req_string("title").unwrap(), "second");
    assert!(entity.property("title").unwrap().exclude_from_indexes);
    assert_eq!(entity.properties().len(), 2);
    assert_eq!(entity.req_bool("read").unwrap(), true);
}

#[test]
fn later_key_wins() {
    let entity = Entity::builder()
        .with_key_name("Movie", "m1")
        .with_key(Key::named("Book", "b1"))
        .build();
    assert_eq!(entity.req_key("Book").unwrap().name().unwrap(), "b1");
    let entity = Entity::builder().with_key(Key::named("Book", "b1")).with_key_name("Movie", "m1").build();
    assert_eq!(entity.key().unwrap().kind().unwrap(), "Movie");
}

#[test]
fn steps_may_come_in_any_order() {
    let a = Entity::builder().with_key_name("Book", "b1").add_string("title", "Hi", true).add_bool("read", true, true).build();
    let b = Entity::builder().add_bool("read", true, true).add_string("title", "Hi", true).with_key_name("Book", "b1").build();
    assert_eq!(a.key(), b.key());
    assert_eq!(a.req_string("title").unwrap(), b.req_string("title").unwrap());
    assert_eq!(a.req_bool("read").unwrap(), b.req_bool("read").unwrap());
    assert_eq!(a.properties().len(), b.properties().len());
}

#[test]
fn absent_optional_values_write_nothing() {
    let entity = Entity::builder()
        .opt_string("title", None, true)
        .opt_bool("read", None, true)
        .opt_offset_date_time("printed", None, true)
        .opt_value("pages", None, true)
        .build();
    assert_eq!(entity.properties().len(), 0);
    assert!(entity.key().is_none());
}

#[test]
fn present_optional_values_are_written() {
    let at = UnixDateTime::from_unix_timestamp(60).unwrap();
    let entity = Entity::builder()
        .opt_string("title", Some("Hi"), false)
        .opt_bool("read", Some(true), true)
        .opt_offset_date_time("printed", Some(at), true)
        .opt_value("pages", Some(ValueType::IntegerValue(12)), true)
        .build();
    assert_eq!(entity.req_string("title").unwrap(), "Hi");
    assert!(entity.property("title").unwrap().exclude_from_indexes);
    assert_eq!(entity.req_bool("read").unwrap(), true);
    assert_eq!(entity.req_offset_date_time("printed").unwrap(), at);
    assert!(matches!(entity.property("pages").unwrap().value_type, Some(ValueType::IntegerValue(12))));
}

#[test]
fn value_type_from_string_and_date_time() {
    let text: ValueType = String::from("x").into();
    assert!(matches!(text, ValueType::StringValue(ref s) if s == "x"));
    let at: ValueType = UnixDateTime::from_unix_timestamp(5).unwrap().into();
    assert!(matches!(at, ValueType::TimestampValue(Timestamp { seconds: 5, nanos: 0 })));
}

#[test]
fn entity_comes_apart_into_key_and_properties() {
    let entity = Entity::builder().with_key_name("Book", "b1").add_string("title", "Hi", true).build();
    let (key, properties) = entity.into_parts();
    assert_eq!(key, Some(Key::named("Book", "b1")));
    assert_eq!(properties.len(), 1);
    assert_eq!(properties[0].name, "title");
}

#[test]
fn nested_entity_is_a_value_like_any_other() {
    let inner = Entity::builder().add_string("city", "Bonn", true).build();
    let entity = Entity::builder().add_value("address", ValueType::EntityValue(inner), false).build();
    match &entity.property("address").unwrap().value_type {
        Some(ValueType::EntityValue(e)) => assert_eq!(e.req_string("city").unwrap(), "Bonn"),
        other => panic!("not an entity: {:?}", other),
    }
    assert_eq!(entity.opt_string("address").unwrap_err().to_string(), "Field address is not a string");
}

#[test]
fn names_are_compared_as_whole_text() {
    let entity = Entity::builder().add_string("title", "Hi", true).add_string("titl", "Ho", true).build();
    assert_eq!(entity.req_string("titl").unwrap(), "Ho");
    assert_eq!(entity.req_string("title").unwrap(), "Hi");
    assert_eq!(entity.opt_string("titles").unwrap(), None);
    assert_eq!(entity.opt_string("Title").unwrap(), None);
    assert_eq!(entity.opt_string("").unwrap(), None);
}

#[test]
fn clone_of_an_entity_reads_the_same() {
    let inner = Entity::builder().add_string("city", "Bonn", true).build();
    let mixed = ArrayValue {
        values: vec![value_of(ValueType::IntegerValue(2)), value_of(ValueType::StringValue("c".to_string()))],
    };
    let entity = Entity::builder()
        .with_key_name("Book", "b1")
        .add_string("title", "Hi", false)
        .add_bool("read", true, true)
        .add_string_array("tags", strings(&["a", "b"]))
        .add_value("address", ValueType::EntityValue(inner), true)
        .add_value("mixed", ValueType::ArrayValue(mixed), true)
        .add_value("pages", ValueType::DoubleValue(1.5f64.to_bits()), true)
        .build();
    let copy = entity.clone();
    assert_eq!(copy.key(), entity.key());
    assert_eq!(copy.properties().len(), entity.properties().len());
    assert_eq!(copy.req_string("title").unwrap(), "Hi");
    assert!(copy.property("title").unwrap().exclude_from_indexes);
    assert_eq!(copy.req_bool("read").unwrap(), true);
    assert_eq!(copy.req_string_array("tags").unwrap(), strings(&["a", "b"]));
    match &copy.property("address").unwrap().value_type {
        Some(ValueType::EntityValue(e)) => assert_eq!(e.req_string("city").unwrap(), "Bonn"),
        other => panic!("not an entity: {:?}", other),
    }
    match &copy.property("mixed").unwrap().value_type {
        Some(ValueType::ArrayValue(array)) => {
            assert!(matches!(array.values[0].value_type, Some(ValueType::IntegerValue(2))));
            assert!(matches!(&array.values[1].value_type, Some(ValueType::StringValue(s)) if s == "c"));
        }
        other => panic!("not an array: {:?}", other),
    }
    assert!(matches!(
        copy.property("pages").unwrap().value_type,
        Some(ValueType::DoubleValue(bits)) if f64::from_bits(bits) == 1.5
    ));
}

#[test]
fn clone_of_an_entity_stands_on_its_own() {
    let entity = Entity::builder().with_key_name("Book", "b1").add_string("title", "Hi", true).build();
    let changed = entity.clone().with_property("title".to_string(), Value::new(ValueType::BooleanValue(true), true));
    assert_eq!(entity.req_string("title").unwrap(), "Hi");
    assert_eq!(changed.req_bool("title").unwrap(), true);
}

#[test]
fn clone_of_a_value_keeps_variant_and_flags() {
    let value = Value { value_type: Some(ValueType::TimestampValue(Timestamp { seconds: 7, nanos: 9 })), meaning: 3, exclude_from_indexes: true };
    let copy = value.clone();
    assert_eq!(copy.meaning, 3);
    assert!(copy.exclude_from_indexes);
    assert!(matches!(copy.value_type, Some(ValueType::TimestampValue(Timestamp { seconds: 7, nanos: 9 }))));
    let none = Value::default().clone();
    assert!(none.value_type.is_none());
    let key = ValueType::KeyValue(Key::named("Book", "b1")).clone();
    assert!(matches!(key, ValueType::KeyValue(ref k) if *k == Key::named("Book", "b1")));
    assert!(matches!(ValueType::NullValue.clone(), ValueType::NullValue));
}
