use serde_gelf::{
    FlatMap, GelfError, GelfLevel, GelfRecord, GelfRecordBuilder, GelfRecordGetter, LogEvent, Value,
};

fn text(s: &str) -> Value {
    Value::String(s.to_string())
}

fn field<'a>(fields: &'a [(String, Value)], name: &str) -> Option<&'a Value> {
    fields.iter().find(|(key, _)| key == name).map(|(_, value)| value)
}

fn field_names(fields: &[(String, Value)]) -> Vec<&str> {
    fields.iter().map(|(key, _)| key.as_str()).collect()
}

#[test]
fn default_record() {
    let stamp = 1554907321.6123526f64.to_bits();
    let record = GelfRecord::new(stamp);
    assert_eq!(record.facility(), "main");
    assert_eq!(record.file(), "main");
    assert_eq!(record.level(), GelfLevel::Alert);
    assert_eq!(record.levelname(), "Alert");
    assert_eq!(record.line(), 0);
    assert_eq!(record.message(), "");
    assert_eq!(record.timestamp(), stamp);
    assert_eq!(record.full_message(), None);
    assert!(record.additional_fields().is_empty());
    assert_eq!(GelfRecord::version(), "1.1");
}

#[test]
fn default_record_encodes_the_schema() {
    let stamp = 12.5f64.to_bits();
    let record = GelfRecord::new(stamp);
    let fields = record.fields();
    assert_eq!(
        field_names(&fields),
        vec![
            "facility",
            "file",
            "host",
            "level",
            "_levelname",
            "line",
            "short_message",
            "timestamp",
            "version"
        ]
    );
    assert_eq!(field(&fields, "version"), Some(&text("1.1")));
    assert_eq!(field(&fields, "level"), Some(&Value::U32(1)));
    assert_eq!(field(&fields, "_levelname"), Some(&text("Alert")));
    assert_eq!(field(&fields, "full_message"), None);
    assert_eq!(field(&fields, "facility"), Some(&text("main")));
    assert_eq!(field(&fields, "line"), Some(&Value::U32(0)));
    assert_eq!(field(&fields, "short_message"), Some(&text("")));
    assert_eq!(field(&fields, "timestamp"), Some(&Value::F64(stamp)));
    assert_eq!(field(&fields, "host"), Some(&Value::String(record.host())));
}

#[test]
fn host_falls_back_to_localhost() {
    let record = GelfRecord::with_host(None, 0);
    assert_eq!(record.host(), "localhost");
    let record = GelfRecord::with_host(Some("desk".to_string()), 0);
    assert_eq!(record.host(), "desk");
    assert_eq!(record.facility(), "main");
    assert_eq!(record.level(), GelfLevel::Alert);
}

#[test]
fn setters_change_one_attribute_each() {
    let record = GelfRecord::with_host(Some("h".to_string()), 1)
        .set_file("main.rs".to_string())
        .set_facility("app".to_string())
        .set_level(GelfLevel::Notice)
        .set_line(50)
        .set_timestamp(2)
        .set_message("Hello".to_string())
        .set_full_message(Some("Hello, world".to_string()));
    assert_eq!(record.file(), "main.rs");
    assert_eq!(record.facility(), "app");
    assert_eq!(record.level(), GelfLevel::Notice);
    assert_eq!(record.levelname(), "Notice");
    assert_eq!(record.line(), 50);
    assert_eq!(record.timestamp(), 2);
    assert_eq!(record.message(), "Hello");
    assert_eq!(record.full_message(), Some("Hello, world".to_string()));
    assert_eq!(record.host(), "h");
    let record = record.set_full_message(None);
    assert_eq!(record.full_message(), None);
    assert_eq!(record.message(), "Hello");
}

#[test]
fn set_level_sets_the_name_too() {
    let mut record = GelfRecord::with_host(None, 0);
    for ordinal in 0..8u32 {
        let level = GelfLevel::from(ordinal);
        record = record.set_level(level);
        assert_eq!(record.level(), level);
        assert_eq!(record.levelname(), String::from(level));
        let fields = record.fields();
        assert_eq!(field(&fields, "level"), Some(&Value::U32(ordinal)));
        assert_eq!(field(&fields, "_levelname"), Some(&Value::String(String::from(level))));
    }
}

#[test]
fn full_message_is_encoded_when_present() {
    let record = GelfRecord::with_host(None, 0).set_full_message(Some("trace".to_string()));
    let fields = record.fields();
    assert_eq!(fields.len(), 10);
    assert_eq!(fields[9].0, "full_message");
    assert_eq!(fields[9].1, text("trace"));
}

#[test]
fn additional_fields_are_siblings_in_name_order() {
    let data = Value::Mapping(vec![
        (text("b"), Value::I8(2)),
        (text("a"), Value::Sequence(vec![Value::Bool(true)])),
    ]);
    let record = GelfRecord::with_host(None, 0).add_additional_fields(Ok(data));
    let fields = record.fields();
    assert_eq!(fields.len(), 11);
    assert_eq!(fields[9].0, "_a_0");
    assert_eq!(fields[9].1, Value::Bool(true));
    assert_eq!(fields[10].0, "_b");
    assert_eq!(fields[10].1, Value::I8(2));
}

#[test]
fn add_additional_fields_flattens_and_overwrites() {
    let first = Value::Mapping(vec![
        (text("a"), Value::I32(1)),
        (text("b"), Value::Mapping(vec![(text("c"), Value::Bool(true))])),
    ]);
    let second = Value::Mapping(vec![(text("a"), Value::I32(5)), (text("d"), text("y"))]);
    let record = GelfRecord::with_host(None, 0)
        .add_additional_fields(Ok(first))
        .add_additional_fields(Ok(second));
    let fields = record.additional_fields();
    assert_eq!(fields.len(), 3);
    assert_eq!(fields.get("_a"), Some(&Value::I32(5)));
    assert_eq!(fields.get("_b_c"), Some(&Value::Bool(true)));
    assert_eq!(fields.get("_d"), Some(&text("y")));
}

#[test]
fn failed_conversion_leaves_the_record_as_it_is() {
    let data = Value::Mapping(vec![(text("a"), Value::I32(1))]);
    let record = GelfRecord::with_host(Some("h".to_string()), 7)
        .set_message("m".to_string())
        .add_additional_fields(Ok(data));
    let before = record.clone();
    let failure = serde_value::SerializerError::Custom("no value".to_string());
    let after = record.add_additional_fields(Err(failure));
    assert_eq!(after, before);
    assert_eq!(after.additional_fields(), before.additional_fields());
    assert_eq!(after.fields(), before.fields());
}

#[test]
fn extend_additional_fields_merges_without_flattening() {
    let mut flat = FlatMap::new();
    flat.insert("integer".to_string(), Value::I8(10));
    flat.insert("_x".to_string(), Value::I8(1));
    let record = GelfRecord::with_host(None, 0)
        .add_additional_fields(Ok(Value::Mapping(vec![(text("x"), Value::I8(0))])))
        .extend_additional_fields(flat);
    let fields = record.additional_fields();
    assert_eq!(fields.len(), 2);
    assert_eq!(fields.get("integer"), Some(&Value::I8(10)));
    assert_eq!(fields.get("_x"), Some(&Value::I8(1)));
}

#[test]
fn record_of_a_log_event() {
    let event = LogEvent {
        target: "app::net".to_string(),
        file: Some("src/net/tcp.rs".to_string()),
        level: log::Level::Warn,
        line: Some(21),
        message: "connection lost".to_string(),
        timestamp: 3.5f64.to_bits(),
    };
    let record = GelfRecord::from(&event);
    assert_eq!(record.facility(), "app::net");
    assert_eq!(record.file(), "src/net/tcp.rs");
    assert_eq!(record.level(), GelfLevel::Warning);
    assert_eq!(record.levelname(), "Warning");
    assert_eq!(record.line(), 21);
    assert_eq!(record.message(), "connection lost");
    assert_eq!(record.timestamp(), 3.5f64.to_bits());
    assert_eq!(record.full_message(), None);
    assert!(record.additional_fields().is_empty());
}

#[test]
fn record_of_a_log_event_without_file_and_line() {
    let event = LogEvent {
        target: "t".to_string(),
        file: None,
        level: log::Level::Trace,
        line: None,
        message: String::new(),
        timestamp: 0,
    };
    let record = GelfRecord::from(&event);
    assert_eq!(record.file(), "");
    assert_eq!(record.line(), 0);
    assert_eq!(record.level(), GelfLevel::Debugging);
}

#[test]
fn copy_of_a_record_flattens_its_fields_again() {
    let data = Value::Mapping(vec![(text("a"), Value::I32(1))]);
    let source = GelfRecord::with_host(None, 9)
        .set_file("f.rs".to_string())
        .set_facility("fac".to_string())
        .set_level(GelfLevel::Critical)
        .set_line(3)
        .set_message("msg".to_string())
        .set_full_message(Some("full".to_string()))
        .add_additional_fields(Ok(data));
    let copy = GelfRecord::from(&source);
    assert_eq!(copy.file(), "f.rs");
    assert_eq!(copy.facility(), "fac");
    assert_eq!(copy.level(), GelfLevel::Critical);
    assert_eq!(copy.line(), 3);
    assert_eq!(copy.timestamp(), 9);
    assert_eq!(copy.message(), "msg");
    assert_eq!(copy.full_message(), Some("full".to_string()));
    let fields = copy.additional_fields();
    assert_eq!(fields.len(), 1);
    assert_eq!(fields.get("__a"), Some(&Value::I32(1)));
}

#[test]
fn error_of_the_value_serializer() {
    let failure = serde_value::SerializerError::Custom("boom".to_string());
    let error = GelfError::from(failure);
    assert!(matches!(error, GelfError::ValueSerializerError(_)));
    assert_eq!(error.message(), "boom");
}

#[test]
fn error_of_the_json_encoder() {
    let failure = serde_json::from_str::<u32>("{").unwrap_err();
    let said = failure.to_string();
    let error = GelfError::from(failure);
    assert!(matches!(error, GelfError::JsonSerializerError(_)));
    assert_eq!(error.message(), said);
    assert!(!said.is_empty());
}
