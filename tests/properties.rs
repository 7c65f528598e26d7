use serde_json::Value;
use structable::{
    attribute_table, build_list_table, build_table, columns, data, fields_of, list_row,
    list_rows, record_status, render_value, serialized_cell, strip_quotes, Columns,
    FieldDescriptor, FieldValue, OutputConfig, StructTable, StructTableOptions,
};

fn json(text: &str) -> Value {
    serde_json::from_str(text).expect("valid JSON")
}

fn strings(items: &[&str]) -> Vec<String> {
    items.iter().map(|s| s.to_string()).collect()
}

fn config(fields: &[&str], wide: bool, pretty: bool) -> OutputConfig {
    OutputConfig {
        fields: strings(fields),
        wide,
        pretty,
    }
}

fn serialized(title: &str) -> FieldDescriptor {
    FieldDescriptor {
        serialize: true,
        ..FieldDescriptor::new(title)
    }
}

fn without_whitespace(s: &str) -> String {
    s.chars().filter(|c| !c.is_whitespace()).collect()
}

struct Row {
    name: String,
    note: Option<String>,
    blob: Option<Value>,
}

impl StructTable for Row {
    fn class_fields() -> Option<Vec<FieldDescriptor>> {
        Some(vec![
            FieldDescriptor::new("name"),
            FieldDescriptor {
                optional: true,
                ..FieldDescriptor::new("note")
            },
            FieldDescriptor {
                optional: true,
                serialize: true,
                wide: true,
                ..FieldDescriptor::new("blob")
            },
        ])
    }

    fn values(&self) -> Vec<FieldValue> {
        vec![
            FieldValue::Text(self.name.clone()),
            match &self.note {
                Some(n) => FieldValue::Text(n.clone()),
                None => FieldValue::Absent,
            },
            match &self.blob {
                Some(b) => FieldValue::Json(b.clone()),
                None => FieldValue::Absent,
            },
        ]
    }

    fn instance_fields(&self) -> Option<Vec<FieldDescriptor>> {
        None
    }
}

fn rows() -> Vec<Row> {
    vec![
        Row {
            name: "a".into(),
            note: None,
            blob: Some(json(r#"[1, 2]"#)),
        },
        Row {
            name: "b".into(),
            note: Some("n".into()),
            blob: None,
        },
    ]
}

struct OnlyInstance;

impl StructTable for OnlyInstance {
    fn class_fields() -> Option<Vec<FieldDescriptor>> {
        None
    }

    fn instance_fields(&self) -> Option<Vec<FieldDescriptor>> {
        Some(vec![FieldDescriptor::new("k")])
    }

    fn values(&self) -> Vec<FieldValue> {
        vec![FieldValue::Text("v".into())]
    }
}

#[test]
fn list_rows_match_header_count() {
    let configs = [
        config(&[], false, false),
        config(&[], true, false),
        config(&["BLOB", "name"], false, true),
        config(&["missing"], true, false),
    ];
    for c in configs.iter() {
        let (headers, table) = build_list_table(&rows(), c);
        assert_eq!(table.len(), 2);
        for row in table.iter() {
            assert_eq!(row.len(), headers.len());
        }
    }
}

#[test]
fn absent_optional_dropped_single_blank_in_list() {
    let record = &rows()[0];
    let (_, single) = build_table(record, &OutputConfig::default());
    assert_eq!(single, vec![strings(&["name", "a"])]);
    let (headers, list) = build_list_table(&rows()[..1], &OutputConfig::default());
    assert_eq!(headers, strings(&["name", "note"]));
    assert_eq!(list, vec![strings(&["a", " "])]);
}

#[test]
fn selection_ignores_order_and_repetition() {
    let a = config(&["name", "BLOB"], false, false);
    let b = config(&["blob", "Name", "name"], false, false);
    for title in ["name", "NAME", "blob", "note", "other"] {
        for wide in [false, true] {
            assert_eq!(
                a.should_return_field(title, wide),
                b.should_return_field(title, wide)
            );
        }
    }
}

#[test]
fn explicit_request_overrides_wide_gating() {
    let c = config(&["X"], false, false);
    assert!(c.should_return_field("X", true));
    assert!(c.should_return_field("x", true));
    assert!(!c.should_return_field("Y", true));
    assert!(!c.should_return_field("Y", false));
}

#[test]
fn wide_fields_need_wide_mode_without_request() {
    assert!(!config(&[], false, false).should_return_field("W", true));
    assert!(config(&[], true, false).should_return_field("W", true));
    assert!(config(&[], false, false).should_return_field("N", false));
}

#[test]
fn pretty_and_compact_differ_in_whitespace_only() {
    let field = serialized("d");
    let value = FieldValue::Json(json(r#"{"a": [1, {"b": null}], "c": "d e"}"#));
    let compact = render_value(&value, &field, &None, false).expect("cell");
    let pretty = render_value(&value, &field, &None, true).expect("cell");
    assert_eq!(compact, "{\"a\":[1,{\"b\":null}],\"c\":\"d e\"}");
    assert_ne!(compact, pretty);
    assert_eq!(without_whitespace(&compact), without_whitespace(&pretty));
}

fn status_fields() -> Vec<FieldDescriptor> {
    vec![
        FieldDescriptor::new("Status"),
        FieldDescriptor {
            status: true,
            ..FieldDescriptor::new("state")
        },
    ]
}

#[test]
fn flagged_status_wins_over_title() {
    let values = vec![
        FieldValue::Text("by title".into()),
        FieldValue::Text("by flag".into()),
    ];
    assert_eq!(
        record_status(&status_fields(), &values),
        Some("by flag".to_string())
    );
}

#[test]
fn status_falls_back_to_title() {
    let fields = vec![FieldDescriptor::new("id"), FieldDescriptor::new("STATUS")];
    let values = vec![FieldValue::Text("1".into()), FieldValue::Text("up".into())];
    assert_eq!(record_status(&fields, &values), Some("up".to_string()));
    let none = vec![FieldDescriptor::new("id")];
    assert_eq!(record_status(&none, &values), None);
}

#[test]
fn status_ignores_selection_and_serializes_compact() {
    let fields = vec![FieldDescriptor {
        wide: true,
        pretty: true,
        status: true,
        ..FieldDescriptor::new("s")
    }];
    let values = vec![FieldValue::Json(json(r#"{"x": 1}"#))];
    assert_eq!(record_status(&fields, &values), Some("{\"x\":1}".to_string()));
}

#[test]
fn status_of_missing_value_is_absent() {
    assert_eq!(record_status(&status_fields(), &Vec::new()), None);
}

#[test]
fn list_of_type_without_class_fields_is_empty() {
    let (headers, table) = build_list_table(&[OnlyInstance], &OutputConfig::default());
    assert!(headers.is_empty());
    assert!(table.is_empty());
    let (_, single) = build_table(&OnlyInstance, &OutputConfig::default());
    assert_eq!(single, vec![strings(&["k", "v"])]);
}

#[test]
fn unresolved_pointer_renders_null() {
    let value = FieldValue::Json(json(r#"{"a": 1}"#));
    let cell = render_value(&value, &serialized("f"), &Some("/b".to_string()), false);
    assert_eq!(cell, Some("null".to_string()));
}

#[test]
fn empty_pointer_selects_whole_value() {
    let value = FieldValue::Json(json(r#"{"a": 1}"#));
    let cell = render_value(&value, &serialized("f"), &Some(String::new()), false);
    assert_eq!(cell, Some("{\"a\":1}".to_string()));
}

#[test]
fn pointer_into_array() {
    let value = FieldValue::Json(json(r#"{"a": [10, 20]}"#));
    let cell = render_value(&value, &serialized("f"), &Some("/a/1".to_string()), false);
    assert_eq!(cell, Some("20".to_string()));
}

#[test]
fn serialization_error_gives_marker() {
    let err = serde_json::from_str::<Value>("{").unwrap_err();
    assert_eq!(serialized_cell(Err(err)), "<ERROR SERIALIZING DATA>");
    assert_eq!(serialized_cell(Ok("\"x\"".to_string())), "x");
}

#[test]
fn strip_quotes_one_layer() {
    assert_eq!(strip_quotes("\"abc\""), "abc");
    assert_eq!(strip_quotes("abc"), "abc");
    assert_eq!(strip_quotes("\""), "");
    assert_eq!(strip_quotes("\"\"x\"\""), "\"x\"");
    assert_eq!(strip_quotes(""), "");
}

#[test]
fn text_value_serialized_as_json_string() {
    let value = FieldValue::Text("say \"hi\"".into());
    let cell = render_value(&value, &serialized("t"), &None, false);
    assert_eq!(cell, Some("say \\\"hi\\\"".to_string()));
    let plain = render_value(&value, &FieldDescriptor::new("t"), &None, false);
    assert_eq!(plain, Some("say \"hi\"".to_string()));
}

#[test]
fn unserialized_json_value_keeps_quotes() {
    let value = FieldValue::Json(Value::String("x".into()));
    let cell = render_value(&value, &FieldDescriptor::new("j"), &None, false);
    assert_eq!(cell, Some("\"x\"".to_string()));
}

#[test]
fn pretty_flag_alone_serializes() {
    let field = FieldDescriptor {
        pretty: true,
        ..FieldDescriptor::new("p")
    };
    let value = FieldValue::Json(json(r#"{"a": 1}"#));
    assert_eq!(
        render_value(&value, &field, &None, true),
        Some("{\n  \"a\": 1\n}".to_string())
    );
    assert_eq!(
        render_value(&value, &field, &None, false),
        Some("{\"a\":1}".to_string())
    );
}

#[test]
fn absent_value_has_no_cell() {
    let field = FieldDescriptor {
        optional: true,
        serialize: true,
        ..FieldDescriptor::new("o")
    };
    assert_eq!(render_value(&FieldValue::Absent, &field, &None, true), None);
}

#[test]
fn columns_follow_output_config() {
    let fields = Row::class_fields().expect("fields");
    let cols = columns(&fields, &config(&["NOTE"], false, true));
    assert_eq!(cols.shown, vec![false, true, false]);
    assert_eq!(cols.pointers, vec![None, None, None]);
    assert!(cols.pretty);
}

#[test]
fn record_descriptors_fall_back_to_instance_list() {
    assert!(fields_of(&OnlyInstance).is_some());
    assert_eq!(fields_of(&rows()[0]).map(|f| f.len()), Some(3));
}

#[test]
fn rows_from_explicit_columns() {
    let fields = Row::class_fields().expect("fields");
    let values = rows()[0].values();
    let cols = Columns {
        shown: vec![true, true, true],
        pointers: vec![None, None, Some("/0".to_string())],
        pretty: false,
    };
    assert_eq!(
        data(&fields, &values, &cols),
        vec![Some("a".to_string()), None, Some("1".to_string())]
    );
    assert_eq!(
        attribute_table(&fields, &values, &cols),
        vec![strings(&["name", "a"]), strings(&["blob", "1"])]
    );
    assert_eq!(list_row(&fields, &values, &cols), strings(&["a", " ", "1"]));
}

#[test]
fn fewer_values_than_fields_leave_cells_absent() {
    let fields = vec![FieldDescriptor::new("a"), FieldDescriptor::new("b")];
    let values = vec![FieldValue::Text("1".into())];
    let cols = columns(&fields, &OutputConfig::default());
    assert_eq!(list_row(&fields, &values, &cols), strings(&["1", " "]));
    assert_eq!(
        attribute_table(&fields, &values, &cols),
        vec![strings(&["a", "1"])]
    );
}

#[test]
fn list_rows_follow_record_order() {
    let fields = Row::class_fields().expect("fields");
    let cols = columns(&fields, &OutputConfig::default());
    let values: Vec<Vec<FieldValue>> = rows().iter().rev().map(|r| r.values()).collect();
    assert_eq!(
        list_rows(&fields, &values, &cols),
        vec![strings(&["b", "n"]), strings(&["a", " "])]
    );
    assert!(list_rows(&fields, &Vec::new(), &cols).is_empty());
}

#[test]
fn unserializable_value_renders_marker() {
    let marker = Some("<ERROR SERIALIZING DATA>".to_string());
    assert_eq!(
        render_value(&FieldValue::Unserializable, &serialized("u"), &None, true),
        marker
    );
    assert_eq!(
        render_value(&FieldValue::Unserializable, &FieldDescriptor::new("u"), &None, false),
        marker
    );
}

#[test]
fn output_config_options_report_its_flags() {
    let c = config(&["a"], true, false);
    assert!(StructTableOptions::wide_mode(&c));
    assert!(!StructTableOptions::pretty_mode(&c));
    assert!(StructTableOptions::should_return_field(&c, "A", true));
    assert_eq!(c.field_data_json_pointer("a"), None);
    let d = config(&[], false, true);
    assert!(!d.wide_mode());
    assert!(d.pretty_mode());
}
