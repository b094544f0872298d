use operaton_task_worker::json::{Json, JsonNumber};
use operaton_task_worker::process_variables::{
    decode_document, decode_parsed, decode_stream, parse_process_instance_variables,
    payload_shape, shape_of_parsed, Entry, JsonValue, ProcessInstanceVariable, Shape,
    VariableError,
};

fn text(s: &str) -> Json {
    Json::String(s.to_string())
}

fn object(members: Vec<(&str, Json)>) -> Json {
    Json::Object(members.into_iter().map(|(k, v)| (k.to_string(), v)).collect())
}

fn entry(typ: &str, value: Json) -> Json {
    object(vec![("type", text(typ)), ("value", value), ("valueInfo", object(vec![]))])
}

fn named_entry(name: &str, typ: &str, value: Json) -> Json {
    object(vec![
        ("type", text(typ)),
        ("value", value),
        ("valueInfo", object(vec![])),
        ("name", text(name)),
    ])
}

#[test]
fn mod_test_module_parsing() {
    let response_string: &str = "{\"checklist_vj3ler\":{\"type\":\"Json\",\"value\":{\"dataFormatName\":\"application/json\",\"value\":false,\"string\":false,\"object\":false,\"boolean\":false,\"number\":false,\"array\":true,\"null\":false,\"nodeType\":\"ARRAY\"},\"valueInfo\":{}},\"checkbox_6ow5yg\":{\"type\":\"Boolean\",\"value\":true,\"valueInfo\":{}}}";
    let variables = parse_process_instance_variables(response_string);
    assert!(!variables.is_empty())
}

#[test]
fn process_variables_test_module_parsing() {
    let response_string: &str = "{\"checklist_vj3ler\":{\"type\":\"Json\",\"value\":{\"dataFormatName\":\"application/json\",\"value\":false,\"string\":false,\"object\":false,\"boolean\":false,\"number\":false,\"array\":true,\"null\":false,\"nodeType\":\"ARRAY\"},\"valueInfo\":{}},\"checkbox_6ow5yg\":{\"type\":\"Boolean\",\"value\":true,\"valueInfo\":{}}}";
    let variables = parse_process_instance_variables(response_string);
    assert!(!variables.is_empty());
    assert_eq!(variables.len(), 2);
    assert_eq!(variables.get("checkbox_6ow5yg").unwrap().as_bool(), Some(true));
    assert_eq!(variables.get("checklist_vj3ler").unwrap().as_json(), Some(&Json::Bool(false)));
    assert_eq!(variables.get("checklist_vj3ler").unwrap().as_bool(), None);
}

#[test]
fn test_module_parsing_complex_json_sequence() {
    let response_string: &str = "[{\"type\":\"String\",\"value\":\"5x Vier Jahreszeiten\",\"valueInfo\":{},\"id\":\"f9bac09f-c5df-11f0-94e9-0242c0a80103\",\"name\":\"pizza_wishlist\",\"processDefinitionId\":\"OrderPizza:3:f2d157ce-c5df-11f0-94e9-0242c0a80103\",\"processInstanceId\":\"f2d4da42-c5df-11f0-94e9-0242c0a80103\",\"executionId\":\"f2d4da42-c5df-11f0-94e9-0242c0a80103\",\"caseInstanceId\":null,\"caseExecutionId\":null,\"taskId\":null,\"batchId\":null,\"activityInstanceId\":\"f2d4da42-c5df-11f0-94e9-0242c0a80103\",\"errorMessage\":null,\"tenantId\":null},{\"type\":\"String\",\"value\":\"JA\",\"valueInfo\":{},\"id\":\"f9bac0a2-c5df-11f0-94e9-0242c0a80103\",\"name\":\"mehrheit_will_pizza\",\"processDefinitionId\":\"OrderPizza:3:f2d157ce-c5df-11f0-94e9-0242c0a80103\",\"processInstanceId\":\"f2d4da42-c5df-11f0-94e9-0242c0a80103\",\"executionId\":\"f2d4da42-c5df-11f0-94e9-0242c0a80103\",\"caseInstanceId\":null,\"caseExecutionId\":null,\"taskId\":null,\"batchId\":null,\"activityInstanceId\":\"f2d4da42-c5df-11f0-94e9-0242c0a80103\",\"errorMessage\":null,\"tenantId\":null},{\"type\":\"String\",\"value\":\"JA\",\"valueInfo\":{},\"id\":\"f9bae7b5-c5df-11f0-94e9-0242c0a80103\",\"name\":\"MehrheitWillPizza\",\"processDefinitionId\":\"OrderPizza:3:f2d157ce-c5df-11f0-94e9-0242c0a80103\",\"processInstanceId\":\"f2d4da42-c5df-11f0-94e9-0242c0a80103\",\"executionId\":\"f2d4da42-c5df-11f0-94e9-0242c0a80103\",\"caseInstanceId\":null,\"caseExecutionId\":null,\"taskId\":null,\"batchId\":null,\"activityInstanceId\":\"f2d4da42-c5df-11f0-94e9-0242c0a80103\",\"errorMessage\":null,\"tenantId\":null},{\"type\":\"String\",\"value\":\"5x Vier Jahreszeiten\",\"valueInfo\":{},\"id\":\"f9bae7b7-c5df-11f0-94e9-0242c0a80103\",\"name\":\"Pizzawuensche\",\"processDefinitionId\":\"OrderPizza:3:f2d157ce-c5df-11f0-94e9-0242c0a80103\",\"processInstanceId\":\"f2d4da42-c5df-11f0-94e9-0242c0a80103\",\"executionId\":\"f2d4da42-c5df-11f0-94e9-0242c0a80103\",\"caseInstanceId\":null,\"caseExecutionId\":null,\"taskId\":null,\"batchId\":null,\"activityInstanceId\":\"f2d4da42-c5df-11f0-94e9-0242c0a80103\",\"errorMessage\":null,\"tenantId\":null},{\"type\":\"String\",\"value\":\"5x Vier Jahreszeiten\",\"valueInfo\":{},\"id\":\"f9bb0ecc-c5df-11f0-94e9-0242c0a80103\",\"name\":\"Bestellungen\",\"processDefinitionId\":\"OrderPizza:3:f2d157ce-c5df-11f0-94e9-0242c0a80103\",\"processInstanceId\":\"f2d4da42-c5df-11f0-94e9-0242c0a80103\",\"executionId\":\"f9bb0eca-c5df-11f0-94e9-0242c0a80103\",\"caseInstanceId\":null,\"caseExecutionId\":null,\"taskId\":null,\"batchId\":null,\"activityInstanceId\":\"ServiceTask_OrderPizza:f9bb0ecb-c5df-11f0-94e9-0242c0a80103\",\"errorMessage\":null,\"tenantId\":null}]";
    let variables = parse_process_instance_variables(response_string);
    assert!(!(variables.is_empty()));
    assert_eq!(variables.len(), 5);
    assert_eq!(variables.get("pizza_wishlist").unwrap().as_str(), Some("5x Vier Jahreszeiten"));
    assert_eq!(variables.get("mehrheit_will_pizza").unwrap().as_str(), Some("JA"));
    assert_eq!(variables.get("Bestellungen").unwrap().as_str(), Some("5x Vier Jahreszeiten"));
}

#[test]
fn test_module_parsing_invalid() {
    let response_string: &str = "{\"invalid\":}";
    let variables = parse_process_instance_variables(response_string);
    assert!(variables.is_empty());
    assert_eq!(variables.len(), 0);
}

#[test]
fn boolean_entry_in_an_object() {
    let variables =
        parse_process_instance_variables("{\"k\":{\"type\":\"Boolean\",\"value\":true,\"valueInfo\":{}}}");
    assert_eq!(variables.len(), 1);
    assert_eq!(variables.get("k").unwrap().as_bool(), Some(true));
    assert_eq!(variables.get("k").unwrap().as_str(), None);
    assert!(variables.get("k").unwrap().as_json().is_none());
}

#[test]
fn flat_array_ignores_other_members() {
    let variables = parse_process_instance_variables(
        "[{\"type\":\"String\",\"value\":\"x\",\"valueInfo\":{},\"name\":\"n\",\"id\":\"1\",\"taskId\":null,\"extra\":[1,2,{\"a\":null}]}]",
    );
    assert_eq!(variables.len(), 1);
    assert_eq!(variables.get("n").unwrap().as_str(), Some("x"));
}

#[test]
fn array_of_objects() {
    let variables = parse_process_instance_variables(
        "[{\"a\":{\"type\":\"String\",\"value\":\"x\",\"valueInfo\":{}}},{\"b\":{\"type\":\"Boolean\",\"value\":false,\"valueInfo\":{}},\"c\":{\"type\":\"Boolean\",\"value\":true,\"valueInfo\":{}}}]",
    );
    assert_eq!(variables.len(), 3);
    assert_eq!(variables.get("a").unwrap().as_str(), Some("x"));
    assert_eq!(variables.get("b").unwrap().as_bool(), Some(false));
    assert_eq!(variables.get("c").unwrap().as_bool(), Some(true));
}

#[test]
fn entries_one_after_the_other() {
    let variables = parse_process_instance_variables(
        "{\"type\":\"String\",\"value\":\"x\",\"valueInfo\":{},\"name\":\"a\"}\n{\"type\":\"Boolean\",\"value\":true,\"valueInfo\":{},\"name\":\"b\"}",
    );
    assert_eq!(variables.len(), 2);
    assert_eq!(variables.get("a").unwrap().as_str(), Some("x"));
    assert_eq!(variables.get("b").unwrap().as_bool(), Some(true));
}

#[test]
fn objects_one_after_the_other() {
    let variables = parse_process_instance_variables(
        "{\"a\":{\"type\":\"String\",\"value\":\"x\",\"valueInfo\":{}}} {\"b\":{\"type\":\"Boolean\",\"value\":true,\"valueInfo\":{}}}",
    );
    assert_eq!(variables.len(), 2);
    assert_eq!(variables.get("a").unwrap().as_str(), Some("x"));
    assert_eq!(variables.get("b").unwrap().as_bool(), Some(true));
}

#[test]
fn a_single_entry_is_a_stream_of_one() {
    let variables = parse_process_instance_variables(
        "{\"type\":\"String\",\"value\":\"x\",\"valueInfo\":{},\"name\":\"a\"}",
    );
    assert_eq!(variables.len(), 1);
    assert_eq!(variables.get("a").unwrap().as_str(), Some("x"));
}

#[test]
fn stream_stops_at_the_first_text_that_is_no_json() {
    let variables = parse_process_instance_variables(
        "{\"a\":{\"type\":\"String\",\"value\":\"x\",\"valueInfo\":{}}} {\"b\":} {\"c\":{\"type\":\"Boolean\",\"value\":true,\"valueInfo\":{}}}",
    );
    assert_eq!(variables.len(), 1);
    assert_eq!(variables.get("a").unwrap().as_str(), Some("x"));
    assert!(variables.get("c").is_none());
}

#[test]
fn first_shape_that_fits_decides_even_when_empty() {
    assert!(parse_process_instance_variables("{}").is_empty());
    assert!(parse_process_instance_variables("[]").is_empty());
    assert!(parse_process_instance_variables("").is_empty());
    assert!(parse_process_instance_variables("42").is_empty());
    let unnamed = parse_process_instance_variables(
        "[{\"type\":\"String\",\"value\":\"x\",\"valueInfo\":{}}]",
    );
    assert!(unnamed.is_empty());
}

#[test]
fn value_that_does_not_fit_gives_the_empty_value() {
    let variables = parse_process_instance_variables(
        "{\"s\":{\"type\":\"String\",\"value\":7,\"valueInfo\":{}},\"b\":{\"type\":\"Boolean\",\"value\":\"yes\",\"valueInfo\":{}},\"j\":{\"type\":\"Json\",\"value\":\"text\",\"valueInfo\":{}}}",
    );
    assert_eq!(variables.len(), 3);
    assert_eq!(variables.get("s").unwrap().as_str(), Some(""));
    assert_eq!(variables.get("b").unwrap().as_bool(), Some(false));
    assert_eq!(variables.get("j").unwrap().as_json(), Some(&Json::Null));
}

#[test]
fn entry_of_another_type_is_passed_over() {
    let variables = parse_process_instance_variables(
        "{\"n\":{\"type\":\"Integer\",\"value\":7,\"valueInfo\":{}},\"b\":{\"type\":\"Boolean\",\"value\":true,\"valueInfo\":{}}}",
    );
    assert_eq!(variables.len(), 1);
    assert!(variables.get("n").is_none());
    assert!(!variables.contains_key("n"));
    assert!(variables.contains_key("b"));
}

#[test]
fn entry_without_a_part_fits_no_shape() {
    assert!(parse_process_instance_variables("{\"k\":{\"type\":\"Boolean\",\"value\":true}}").is_empty());
    assert!(parse_process_instance_variables("{\"k\":{\"value\":true,\"valueInfo\":{}}}").is_empty());
    assert!(parse_process_instance_variables("{\"k\":{\"type\":\"Boolean\",\"valueInfo\":{}}}").is_empty());
    assert!(parse_process_instance_variables(
        "[{\"type\":\"Boolean\",\"value\":true,\"valueInfo\":{},\"name\":5}]"
    )
    .is_empty());
}

#[test]
fn metadata_is_kept() {
    let variables = parse_process_instance_variables(
        "{\"k\":{\"type\":\"String\",\"value\":\"v\",\"valueInfo\":{\"filename\":\"a.txt\",\"n\":3}}}",
    );
    match variables.get("k").unwrap() {
        ProcessInstanceVariable::String(s) => {
            assert_eq!(s.value, "v");
            assert_eq!(s.value_info.len(), 2);
            assert_eq!(s.value_info.get("filename"), Some(&text("a.txt")));
            assert_eq!(s.value_info.get("n"), Some(&Json::Number(JsonNumber::PosInt(3))));
        }
        other => panic!("not a string variable: {:?}", other),
    }
}

#[test]
fn later_name_replaces_earlier_one() {
    let docs = vec![
        named_entry("a", "String", text("first")),
        named_entry("a", "String", text("second")),
    ];
    let variables = decode_stream(&docs);
    assert_eq!(variables.len(), 1);
    assert_eq!(variables.get("a").unwrap().as_str(), Some("second"));
}

#[test]
fn decode_document_tells_the_shapes_apart() {
    let map = object(vec![("a", entry("Boolean", Json::Bool(true)))]);
    assert_eq!(decode_document(&map).unwrap().len(), 1);
    let flat = Json::Array(vec![named_entry("a", "Boolean", Json::Bool(true))]);
    assert_eq!(decode_document(&flat).unwrap().get("a").unwrap().as_bool(), Some(true));
    let maps = Json::Array(vec![map]);
    assert_eq!(decode_document(&maps).unwrap().get("a").unwrap().as_bool(), Some(true));
    assert!(decode_document(&text("x")).is_none());
    assert!(decode_document(&named_entry("a", "Boolean", Json::Bool(true))).is_none());
    let mixed = Json::Array(vec![
        named_entry("a", "Boolean", Json::Bool(true)),
        object(vec![("b", entry("Boolean", Json::Bool(true)))]),
    ]);
    assert!(decode_document(&mixed).is_none());
}

#[test]
fn decode_parsed_prefers_the_document() {
    let doc = object(vec![("a", entry("Boolean", Json::Bool(true)))]);
    let stream = vec![named_entry("b", "Boolean", Json::Bool(false))];
    let from_doc = decode_parsed(Some(&doc), &stream);
    assert!(from_doc.contains_key("a"));
    assert!(!from_doc.contains_key("b"));
    let from_stream = decode_parsed(None, &stream);
    assert_eq!(from_stream.get("b").unwrap().as_bool(), Some(false));
    let no_shape = text("x");
    assert!(decode_parsed(Some(&no_shape), &stream).contains_key("b"));
}

#[test]
fn stream_of_unnamed_entries_falls_back_to_objects() {
    let unnamed = vec![entry("Boolean", Json::Bool(true))];
    assert!(decode_stream(&unnamed).is_empty());
    let maps = vec![
        object(vec![("a", entry("Boolean", Json::Bool(true)))]),
        text("stop"),
        object(vec![("b", entry("Boolean", Json::Bool(true)))]),
    ];
    let variables = decode_stream(&maps);
    assert_eq!(variables.len(), 1);
    assert!(variables.contains_key("a"));
}

#[test]
fn entry_reads_its_parts() {
    let read = Entry::from_json(&named_entry("n", "String", text("v"))).unwrap();
    assert_eq!(read.name(), "n");
    assert_eq!(read.into_variable().unwrap().as_str(), Some("v"));
    let unnamed = Entry::from_json(&entry("String", text("v"))).unwrap();
    assert_eq!(unnamed.name(), "");
    assert!(Entry::from_json(&text("v")).is_none());
    let null_info =
        object(vec![("type", text("String")), ("value", text("v")), ("valueInfo", Json::Null)]);
    assert!(Entry::from_json(&null_info).is_none());
}

#[test]
fn json_value_needs_all_its_members() {
    let full = object(vec![
        ("dataFormatName", text("application/json")),
        ("value", Json::Array(vec![])),
        ("string", Json::Bool(false)),
        ("object", Json::Bool(false)),
        ("boolean", Json::Bool(false)),
        ("number", Json::Bool(false)),
        ("array", Json::Bool(true)),
        ("null", Json::Bool(false)),
        ("nodeType", text("ARRAY")),
    ]);
    assert_eq!(JsonValue::from_json(&full).unwrap().value(), &Json::Array(vec![]));
    let partial = object(vec![("dataFormatName", text("application/json")), ("value", Json::Null)]);
    assert!(JsonValue::from_json(&partial).is_none());
    assert_eq!(JsonValue::null().value(), &Json::Null);
}

#[test]
fn one_variable_is_read_strictly() {
    let good = object(vec![("k", entry("Boolean", Json::Bool(true)))]);
    assert_eq!(ProcessInstanceVariable::deserialize(&good).unwrap().as_bool(), Some(true));
    let mismatch = object(vec![("k", entry("Boolean", text("yes")))]);
    assert!(matches!(
        ProcessInstanceVariable::deserialize(&mismatch),
        Err(VariableError::ValueMismatch)
    ));
    let unknown = object(vec![("k", entry("Integer", Json::Bool(true)))]);
    match ProcessInstanceVariable::deserialize(&unknown) {
        Err(VariableError::UnknownType(typ)) => assert_eq!(typ, "Integer"),
        other => panic!("unexpected: {:?}", other),
    }
    assert!(matches!(
        ProcessInstanceVariable::deserialize(&object(vec![])),
        Err(VariableError::NoEntries)
    ));
    assert!(matches!(
        ProcessInstanceVariable::deserialize(&text("x")),
        Err(VariableError::NotAnEntryMap)
    ));
}

#[test]
fn shape_of_a_payload_is_told() {
    assert_eq!(
        payload_shape("{\"k\":{\"type\":\"Boolean\",\"value\":true,\"valueInfo\":{}}}"),
        Shape::EntryMap
    );
    assert_eq!(payload_shape("{}"), Shape::EntryMap);
    assert_eq!(payload_shape("[]"), Shape::EntryArray);
    assert_eq!(
        payload_shape("[{\"type\":\"String\",\"value\":\"x\",\"valueInfo\":{},\"name\":\"n\"}]"),
        Shape::EntryArray
    );
    assert_eq!(
        payload_shape("[{\"a\":{\"type\":\"String\",\"value\":\"x\",\"valueInfo\":{}}}]"),
        Shape::MapArray
    );
    assert_eq!(
        payload_shape("{\"type\":\"String\",\"value\":\"x\",\"valueInfo\":{},\"name\":\"n\"} 1"),
        Shape::EntryStream
    );
    assert_eq!(
        payload_shape("{\"a\":{\"type\":\"String\",\"value\":\"x\",\"valueInfo\":{}}} {}"),
        Shape::MapStream
    );
    assert_eq!(payload_shape("{} {}"), Shape::MapStream);
    assert_eq!(payload_shape("{\"invalid\":}"), Shape::Unreadable);
    assert_eq!(payload_shape(""), Shape::Unreadable);
    assert_eq!(payload_shape("42"), Shape::Unreadable);
    assert_eq!(
        payload_shape("{\"type\":\"String\",\"value\":\"x\",\"valueInfo\":{}}"),
        Shape::Unreadable
    );
    assert_eq!(shape_of_parsed(None, &vec![]), Shape::Unreadable);
    assert_eq!(shape_of_parsed(Some(&object(vec![])), &vec![]), Shape::EntryMap);
}
