use serde_gelf::key::index_text;
use serde_gelf::{to_flat_dict, FlatMap, FlatSerializer, KeyNaming, KeySerializer, Value};

fn text(s: &str) -> Value {
    Value::String(s.to_string())
}

fn mapping(entries: Vec<(&str, Value)>) -> Value {
    Value::Mapping(entries.into_iter().map(|(k, v)| (text(k), v)).collect())
}

fn names(flat: &FlatMap) -> Vec<String> {
    (0..flat.len()).map(|i| flat.key_at(i).clone()).collect()
}

#[test]
fn flat_mapping_of_two_scalars() {
    let value = mapping(vec![("a", Value::I32(1)), ("b", text("x"))]);
    let flat = FlatSerializer::disassemble("", "", &value);
    assert_eq!(names(&flat), vec!["_a".to_string(), "_b".to_string()]);
    assert_eq!(flat.get("_a"), Some(&Value::I32(1)));
    assert_eq!(flat.get("_b"), Some(&text("x")));
}

#[test]
fn nested_mapping_joins_names_with_underscores() {
    let inner = mapping(vec![("c", Value::Bool(true)), ("d", text("y"))]);
    let value = mapping(vec![("a", Value::I32(1)), ("b", inner)]);
    let flat = FlatSerializer::disassemble("", "", &value);
    assert_eq!(
        names(&flat),
        vec!["_a".to_string(), "_b_c".to_string(), "_b_d".to_string()]
    );
    assert_eq!(flat.get("_a"), Some(&Value::I32(1)));
    assert_eq!(flat.get("_b_c"), Some(&Value::Bool(true)));
    assert_eq!(flat.get("_b_d"), Some(&text("y")));
}

#[test]
fn sequence_elements_are_named_by_index() {
    let value = mapping(vec![(
        "a",
        Value::Sequence(vec![Value::Bool(true), Value::Bool(false)]),
    )]);
    let flat = FlatSerializer::disassemble("", "", &value);
    assert_eq!(names(&flat), vec!["_a_0".to_string(), "_a_1".to_string()]);
    assert_eq!(flat.get("_a_0"), Some(&Value::Bool(true)));
    assert_eq!(flat.get("_a_1"), Some(&Value::Bool(false)));
}

#[test]
fn long_sequence_uses_decimal_indices() {
    let items: Vec<Value> = (0..12u32).map(Value::U32).collect();
    let value = mapping(vec![("v", Value::Sequence(items))]);
    let flat = FlatSerializer::disassemble("", "", &value);
    assert_eq!(flat.len(), 12);
    assert_eq!(flat.get("_v_0"), Some(&Value::U32(0)));
    assert_eq!(flat.get("_v_9"), Some(&Value::U32(9)));
    assert_eq!(flat.get("_v_10"), Some(&Value::U32(10)));
    assert_eq!(flat.get("_v_11"), Some(&Value::U32(11)));
    // The entries stand in the order of their names, not of the indices.
    assert_eq!(flat.key_at(1), "_v_1");
    assert_eq!(flat.key_at(2), "_v_10");
    assert_eq!(flat.key_at(3), "_v_11");
    assert_eq!(flat.key_at(4), "_v_2");
}

#[test]
fn index_text_is_decimal() {
    assert_eq!(index_text(0), "0");
    assert_eq!(index_text(7), "7");
    assert_eq!(index_text(9), "9");
    assert_eq!(index_text(10), "10");
    assert_eq!(index_text(123), "123");
    assert_eq!(index_text(4096), "4096");
    assert_eq!(index_text(usize::MAX), usize::MAX.to_string());
}

#[test]
fn scalar_at_the_root_has_the_empty_name() {
    let flat = FlatSerializer::disassemble("", "", &Value::U8(7));
    assert_eq!(flat.len(), 1);
    assert_eq!(flat.key_at(0), "");
    assert_eq!(flat.get(""), Some(&Value::U8(7)));
}

#[test]
fn empty_collections_flatten_to_nothing() {
    assert!(FlatSerializer::disassemble("", "", &Value::Mapping(vec![])).is_empty());
    assert!(FlatSerializer::disassemble("", "", &Value::Sequence(vec![])).is_empty());
    let value = mapping(vec![("a", Value::Sequence(vec![]))]);
    assert_eq!(FlatSerializer::disassemble("", "", &value).len(), 0);
}

#[test]
fn path_and_local_name_are_joined() {
    let flat = FlatSerializer::disassemble("_x", "y", &Value::Bool(true));
    assert_eq!(flat.get("_x_y"), Some(&Value::Bool(true)));
    let flat = FlatSerializer::disassemble("_x", "", &Value::Bool(true));
    assert_eq!(flat.get(""), Some(&Value::Bool(true)));
    let flat = FlatSerializer::disassemble("", "y", &Value::Bool(true));
    assert_eq!(flat.get("_y"), Some(&Value::Bool(true)));
}

#[test]
fn format_key_plain() {
    let v = Value::U32(5);
    assert_eq!(KeySerializer::format_key(KeyNaming::Plain, "", "", &v), "");
    assert_eq!(KeySerializer::format_key(KeyNaming::Plain, "p", "", &v), "");
    assert_eq!(KeySerializer::format_key(KeyNaming::Plain, "", "k", &v), "_k");
    assert_eq!(KeySerializer::format_key(KeyNaming::Plain, "p", "k", &v), "p_k");
}

#[test]
fn format_key_typed_suffix() {
    let naming = KeyNaming::TypedSuffix;
    assert_eq!(KeySerializer::format_key(naming, "", "", &Value::U32(5)), "");
    assert_eq!(KeySerializer::format_key(naming, "", "k", &Value::U32(5)), "_k_double");
    assert_eq!(KeySerializer::format_key(naming, "p", "k", &Value::I8(-5)), "p_k_long");
    assert_eq!(KeySerializer::format_key(naming, "p", "k", &Value::Bool(true)), "p_k_bool");
    assert_eq!(
        KeySerializer::format_key(naming, "p", "k", &Value::F64(1.5f64.to_bits())),
        "p_k_float"
    );
    assert_eq!(KeySerializer::format_key(naming, "p", "k", &text("s")), "p_k");
}

#[test]
fn schema_suffix_by_type_class() {
    assert_eq!(KeySerializer::schema_suffix(&Value::Bool(false)), "_bool");
    assert_eq!(KeySerializer::schema_suffix(&Value::U8(1)), "_double");
    assert_eq!(KeySerializer::schema_suffix(&Value::U16(1)), "_double");
    assert_eq!(KeySerializer::schema_suffix(&Value::U32(1)), "_double");
    assert_eq!(KeySerializer::schema_suffix(&Value::U64(1)), "_double");
    assert_eq!(KeySerializer::schema_suffix(&Value::I8(1)), "_long");
    assert_eq!(KeySerializer::schema_suffix(&Value::I16(1)), "_long");
    assert_eq!(KeySerializer::schema_suffix(&Value::I32(1)), "_long");
    assert_eq!(KeySerializer::schema_suffix(&Value::I64(1)), "_long");
    assert_eq!(KeySerializer::schema_suffix(&Value::F32(1.0f32.to_bits())), "_float");
    assert_eq!(KeySerializer::schema_suffix(&Value::F64(1.0f64.to_bits())), "_float");
    assert_eq!(KeySerializer::schema_suffix(&text("s")), "");
    assert_eq!(KeySerializer::schema_suffix(&Value::Char('c')), "");
    assert_eq!(KeySerializer::schema_suffix(&Value::Unit), "");
    assert_eq!(KeySerializer::schema_suffix(&Value::Bytes(vec![1, 2])), "");
    assert_eq!(KeySerializer::schema_suffix(&Value::Option(None)), "");
}

#[test]
fn typed_suffix_mode_names() {
    let naming = KeyNaming::TypedSuffix;
    let flat = FlatSerializer::disassemble_with(naming, "", "", &mapping(vec![("n", Value::U32(5))]));
    assert_eq!(names(&flat), vec!["_n_double".to_string()]);
    let flat = FlatSerializer::disassemble_with(naming, "", "", &mapping(vec![("n", Value::I32(-5))]));
    assert_eq!(names(&flat), vec!["_n_long".to_string()]);
    let flat = FlatSerializer::disassemble_with(naming, "", "", &mapping(vec![("n", Value::Bool(true))]));
    assert_eq!(names(&flat), vec!["_n_bool".to_string()]);
    assert_eq!(flat.get("_n_bool"), Some(&Value::Bool(true)));
}

#[test]
fn typed_suffix_mode_gives_collections_no_suffix() {
    let naming = KeyNaming::TypedSuffix;
    let value = mapping(vec![("a", Value::Sequence(vec![Value::I64(3)]))]);
    let flat = FlatSerializer::disassemble_with(naming, "", "", &value);
    assert_eq!(names(&flat), vec!["_a_0_long".to_string()]);
}

#[test]
fn this_build_names_plainly() {
    assert_eq!(KeyNaming::active(), KeyNaming::Plain);
    let flat = FlatSerializer::disassemble("", "", &mapping(vec![("n", Value::U32(5))]));
    assert_eq!(names(&flat), vec!["_n".to_string()]);
}

#[test]
fn character_keys_name_fields() {
    let value = Value::Mapping(vec![
        (Value::Char('k'), Value::I8(1)),
        (Value::Char('é'), Value::I8(2)),
    ]);
    let flat = FlatSerializer::disassemble("", "", &value);
    assert_eq!(flat.get("_k"), Some(&Value::I8(1)));
    assert_eq!(flat.get("_é"), Some(&Value::I8(2)));
    assert_eq!(flat.len(), 2);
}

#[test]
fn later_entry_wins_on_collision() {
    let value = mapping(vec![
        ("a", Value::Sequence(vec![Value::I32(1)])),
        ("a_0", Value::I32(2)),
    ]);
    let flat = FlatSerializer::disassemble("", "", &value);
    assert_eq!(flat.len(), 1);
    assert_eq!(flat.get("_a_0"), Some(&Value::I32(2)));

    let value = mapping(vec![
        ("a_0", Value::I32(2)),
        ("a", Value::Sequence(vec![Value::I32(1)])),
    ]);
    let flat = FlatSerializer::disassemble("", "", &value);
    assert_eq!(flat.len(), 1);
    assert_eq!(flat.get("_a_0"), Some(&Value::I32(1)));
}

#[test]
fn every_leaf_is_a_scalar() {
    let value = mapping(vec![
        ("a", Value::Sequence(vec![mapping(vec![("b", Value::Unit)]), Value::Sequence(vec![])])),
        ("c", Value::Bytes(vec![0, 255])),
        ("d", Value::Option(Some(Box::new(Value::Sequence(vec![Value::U8(1)]))))),
        ("e", Value::Newtype(Box::new(Value::Char('x')))),
    ]);
    let flat = FlatSerializer::disassemble("", "", &value);
    assert_eq!(flat.len(), 4);
    for i in 0..flat.len() {
        assert!(flat.value_at(i).is_scalar());
    }
    assert_eq!(flat.get("_a_0_b"), Some(&Value::Unit));
    // What is wrapped is no sequence of its own: it stays one value.
    assert_eq!(
        flat.get("_d"),
        Some(&Value::Option(Some(Box::new(Value::Sequence(vec![Value::U8(1)])))))
    );
}

#[test]
fn flattening_twice_gives_equal_mappings() {
    let value = mapping(vec![
        ("z", Value::F32(2.5f32.to_bits())),
        ("a", Value::Sequence(vec![text("p"), text("q")])),
    ]);
    let first = FlatSerializer::disassemble("", "", &value);
    let second = FlatSerializer::disassemble("", "", &value);
    assert_eq!(first, second);
    assert_eq!(names(&first), vec!["_a_0".to_string(), "_a_1".to_string(), "_z".to_string()]);
}

#[test]
fn reflattening_keeps_the_empty_name_only() {
    // The flat mapping of a scalar at the root holds the empty name, and
    // flattening it again gives it back.
    let flat = FlatSerializer::disassemble("", "", &Value::U8(7));
    let again = FlatSerializer::disassemble("", "", &flat.to_value());
    assert_eq!(again, flat);
    // The empty mapping stays empty.
    let empty = FlatMap::new();
    assert_eq!(FlatSerializer::disassemble("", "", &empty.to_value()), empty);
    // Every other name gains an underscore.
    let flat = FlatSerializer::disassemble("", "", &mapping(vec![("a", Value::I32(1))]));
    let again = FlatSerializer::disassemble("", "", &flat.to_value());
    assert_eq!(names(&again), vec!["__a".to_string()]);
    assert_eq!(again.get("__a"), Some(&Value::I32(1)));
}

#[test]
fn text_keys_are_checked() {
    assert!(mapping(vec![("a", Value::I32(1))]).has_text_keys());
    assert!(Value::Mapping(vec![(Value::Char('a'), Value::Unit)]).has_text_keys());
    assert!(!Value::Mapping(vec![(Value::U8(1), Value::Unit)]).has_text_keys());
    assert!(!Value::Sequence(vec![Value::Mapping(vec![(Value::Unit, Value::Unit)])]).has_text_keys());
    assert!(!mapping(vec![("a", Value::Mapping(vec![(Value::Bool(true), Value::Unit)]))])
        .has_text_keys());
    // Flattening does not look into an option or a newtype.
    assert!(Value::Option(Some(Box::new(Value::Mapping(vec![(Value::U8(1), Value::Unit)]))))
        .has_text_keys());
    assert!(Value::I64(0).has_text_keys());
}

#[test]
fn value_copies_are_equal() {
    let value = mapping(vec![
        ("a", Value::Sequence(vec![Value::Bool(true), Value::Bytes(vec![1, 2, 3])])),
        ("b", Value::Option(Some(Box::new(Value::Newtype(Box::new(Value::Char('x'))))))),
        ("c", Value::F64(0.25f64.to_bits())),
    ]);
    assert_eq!(value.clone(), value);
    assert_eq!(value.deep_copy(), value);
}

#[test]
fn to_flat_dict_flattens_from_the_root() {
    let value = mapping(vec![("a", Value::U32(15)), ("b", text("hello"))]);
    let flat = to_flat_dict(Ok(value)).unwrap();
    assert_eq!(names(&flat), vec!["_a".to_string(), "_b".to_string()]);
    assert_eq!(flat.get("_a"), Some(&Value::U32(15)));
    assert_eq!(flat.get("_b"), Some(&text("hello")));
}

#[test]
fn to_flat_dict_hands_a_failure_on() {
    let failure = serde_value::SerializerError::Custom("unsupported".to_string());
    match to_flat_dict(Err(failure)) {
        Err(serde_value::SerializerError::Custom(text)) => assert_eq!(text, "unsupported"),
        Ok(_) => panic!("a failure was flattened"),
    }
}
