use graphql_mcp::decode::{
    arg_from_json, field_from_json, root_fields, schema_types, text_member, text_member_or_empty,
    type_lookup, type_node_from_json, type_ref_from_json,
};
use graphql_mcp::graphql_client::{type_ref_to_sdl, type_to_sdl, unwrap_named_type};
use graphql_mcp::graphql_fullschema::assemble_sdl;
use graphql_mcp::shape::TypeLookup;
use graphql_mcp::transport::{fetch_query, HttpReply};
use serde_json::Value;

fn parse(text: &str) -> Value {
    serde_json::from_str(text).unwrap()
}

#[test]
fn reads_a_wrapped_type_reference() {
    let v = parse(
        r#"{"kind":"NON_NULL","name":null,"ofType":{"kind":"LIST","name":null,"ofType":{"kind":"NON_NULL","name":null,"ofType":{"kind":"OBJECT","name":"Astronaut","ofType":null}}}}"#,
    );
    let t = type_ref_from_json(&v);
    assert_eq!(t.kind, "NON_NULL");
    assert_eq!(t.name, "");
    let list = t.of_type.as_ref().unwrap();
    assert_eq!(list.kind, "LIST");
    let inner = list.of_type.as_ref().unwrap().of_type.as_ref().unwrap();
    assert_eq!(inner.kind, "OBJECT");
    assert_eq!(inner.name, "Astronaut");
    assert!(inner.of_type.is_none());
    assert_eq!(unwrap_named_type(&t), Some(("Astronaut".to_string(), "OBJECT".to_string())));
    assert_eq!(type_ref_to_sdl(&t), "[Astronaut!]!");
}

#[test]
fn reads_a_reference_without_of_type() {
    let t = type_ref_from_json(&parse(r#"{"kind":"SCALAR","name":"Int"}"#));
    assert_eq!(t.kind, "SCALAR");
    assert_eq!(t.name, "Int");
    assert!(t.of_type.is_none());
}

#[test]
fn reads_what_is_no_object_as_the_empty_reference() {
    for text in ["null", "3", "\"OBJECT\"", "[]", "true"] {
        let t = type_ref_from_json(&parse(text));
        assert_eq!(t.kind, "");
        assert_eq!(t.name, "");
        assert!(t.of_type.is_none());
        assert_eq!(unwrap_named_type(&t), None);
        assert_eq!(type_ref_to_sdl(&t), "");
    }
}

#[test]
fn reads_members_of_another_type_as_absent() {
    let t = type_ref_from_json(&parse(r#"{"kind":7,"name":["x"],"ofType":"deep"}"#));
    assert_eq!(t.kind, "");
    assert_eq!(t.name, "");
    let inner = t.of_type.unwrap();
    assert_eq!(inner.kind, "");
    assert_eq!(inner.name, "");
    assert!(inner.of_type.is_none());
}

#[test]
fn text_members() {
    let v = parse(r#"{"a":"x","b":null,"c":1,"d":""}"#);
    assert_eq!(text_member(&v, "a"), Some("x".to_string()));
    assert_eq!(text_member(&v, "b"), None);
    assert_eq!(text_member(&v, "c"), None);
    assert_eq!(text_member(&v, "d"), Some(String::new()));
    assert_eq!(text_member(&v, "e"), None);
    assert_eq!(text_member_or_empty(&v, "a"), "x");
    assert_eq!(text_member_or_empty(&v, "b"), "");
    assert_eq!(text_member_or_empty(&v, "e"), "");
    assert_eq!(text_member(&parse("[\"a\"]"), "a"), None);
}

#[test]
fn reads_an_argument() {
    let a = arg_from_json(&parse(
        r#"{"name":"first","description":"how many","type":{"kind":"NON_NULL","name":null,"ofType":{"kind":"SCALAR","name":"Int"}}}"#,
    ));
    assert_eq!(a.name, "first");
    assert_eq!(a.description, Some("how many".to_string()));
    assert_eq!(type_ref_to_sdl(&a.type_ref), "Int!");
}

#[test]
fn reads_an_argument_without_type() {
    let a = arg_from_json(&parse(r#"{"name":"odd"}"#));
    assert_eq!(a.name, "odd");
    assert_eq!(a.description, None);
    assert_eq!(a.type_ref.kind, "");
    assert_eq!(a.type_ref.name, "");
    assert!(a.type_ref.of_type.is_none());
}

#[test]
fn reads_a_field() {
    let f = field_from_json(&parse(
        r#"{"name":"astronauts","description":null,"args":[{"name":"where","type":{"kind":"INPUT_OBJECT","name":"Filter"}},{"name":"first","type":{"kind":"SCALAR","name":"Int"}}],"type":{"kind":"LIST","name":null,"ofType":{"kind":"OBJECT","name":"Astronaut"}}}"#,
    ));
    assert_eq!(f.name, Some("astronauts".to_string()));
    assert_eq!(f.description, None);
    assert_eq!(f.args.len(), 2);
    assert_eq!(f.args[0].name, "where");
    assert_eq!(f.args[1].name, "first");
    assert_eq!(type_ref_to_sdl(&f.type_ref), "[Astronaut]");
}

#[test]
fn reads_a_field_without_name_or_args() {
    let f = field_from_json(&parse(r#"{"args":"none","type":{"kind":"SCALAR","name":"Int"}}"#));
    assert_eq!(f.name, None);
    assert!(f.args.is_empty());
    assert_eq!(f.type_ref.name, "Int");
}

#[test]
fn reads_an_object_type() {
    let t = type_node_from_json(&parse(
        r#"{"kind":"OBJECT","name":"Item","description":"An item","fields":[{"name":"id","args":[],"type":{"kind":"NON_NULL","name":null,"ofType":{"kind":"SCALAR","name":"ID"}}},{"name":"tags","args":[],"type":{"kind":"LIST","name":null,"ofType":{"kind":"SCALAR","name":"String"}}}],"inputFields":null,"enumValues":null,"possibleTypes":null}"#,
    ));
    assert_eq!(t.kind, "OBJECT");
    assert_eq!(t.name, "Item");
    assert_eq!(t.description, Some("An item".to_string()));
    assert_eq!(t.fields.as_ref().unwrap().len(), 2);
    assert!(t.input_fields.is_none());
    assert!(t.enum_values.is_none());
    assert!(t.possible_types.is_none());
    assert_eq!(type_to_sdl(&t), Some("type Item {\n  id: ID!\n  tags: [String]\n}\n".to_string()));
}

#[test]
fn reads_an_enum_type() {
    let t = type_node_from_json(&parse(
        r#"{"kind":"ENUM","name":"Role","enumValues":[{"name":"PILOT","description":"flies"},{"description":"nameless"},{"name":"ENGINEER"}]}"#,
    ));
    let values = t.enum_values.as_ref().unwrap();
    assert_eq!(values.len(), 3);
    assert_eq!(values[0].name, Some("PILOT".to_string()));
    assert_eq!(values[0].description, Some("flies".to_string()));
    assert_eq!(values[1].name, None);
    assert_eq!(values[1].description, Some("nameless".to_string()));
    assert_eq!(type_to_sdl(&t), Some("enum Role {\n  PILOT\n  ENGINEER\n}\n".to_string()));
}

#[test]
fn reads_an_input_object_and_a_union() {
    let t = type_node_from_json(&parse(
        r#"{"kind":"INPUT_OBJECT","name":"Filter","inputFields":[{"name":"name","type":{"kind":"SCALAR","name":"String"}}]}"#,
    ));
    assert_eq!(type_to_sdl(&t), Some("input Filter {\n  name: String\n}\n".to_string()));
    let u = type_node_from_json(&parse(
        r#"{"kind":"UNION","name":"Hit","possibleTypes":[{"name":"Astronaut"},{},{"name":"Mission"}]}"#,
    ));
    assert_eq!(
        u.possible_types,
        Some(vec!["Astronaut".to_string(), String::new(), "Mission".to_string()])
    );
    assert_eq!(type_to_sdl(&u), Some("union Hit = ...\n".to_string()));
}

#[test]
fn root_fields_of_an_answer() {
    let answer = parse(
        r#"{"data":{"__type":{"name":"Query","fields":[{"name":"astronauts","args":[],"type":{"kind":"OBJECT","name":"A"}},{"name":"missions","args":[],"type":{"kind":"OBJECT","name":"M"}}]}}}"#,
    );
    let fields = root_fields(&answer).unwrap();
    assert_eq!(fields.len(), 2);
    assert_eq!(fields[0].name, Some("astronauts".to_string()));
    assert_eq!(fields[1].name, Some("missions".to_string()));
}

#[test]
fn root_fields_that_are_not_listed() {
    assert!(root_fields(&parse(r#"{"data":{"__type":null}}"#)).is_none());
    assert!(root_fields(&parse(r#"{"data":{"__type":{"fields":null}}}"#)).is_none());
    assert!(root_fields(&parse(r#"{"errors":["x"]}"#)).is_none());
    assert!(root_fields(&parse(r#"[]"#)).is_none());
    assert_eq!(root_fields(&parse(r#"{"data":{"__type":{"fields":[]}}}"#)).unwrap().len(), 0);
}

#[test]
fn schema_types_of_an_answer() {
    let answer = parse(
        r#"{"data":{"__schema":{"types":[{"kind":"SCALAR","name":"ID"},{"kind":"OBJECT","name":"Query","fields":[{"name":"n","args":[],"type":{"kind":"SCALAR","name":"Int"}}]},{"kind":"SCALAR","name":"__hidden"}]}}}"#,
    );
    let types = schema_types(&answer).unwrap();
    assert_eq!(types.len(), 3);
    assert_eq!(assemble_sdl(&types), "scalar ID\n\ntype Query {\n  n: Int\n}\n\nscalar __hidden\n\n");
    assert!(schema_types(&parse(r#"{"data":null}"#)).is_none());
    assert!(schema_types(&parse(r#"{"data":{"__schema":{"types":{}}}}"#)).is_none());
}

#[test]
fn lookup_of_a_described_type() {
    let answer = parse(r#"{"data":{"__type":{"kind":"SCALAR","name":"Int"}}}"#);
    match type_lookup(Some(&answer)) {
        TypeLookup::Found(node) => {
            assert_eq!(node.kind, "SCALAR");
            assert_eq!(node.name, "Int");
        },
        other => panic!("unexpected: {:?}", other),
    }
}

#[test]
fn lookup_of_an_unknown_type() {
    let answer = parse(r#"{"data":{"__type":null}}"#);
    assert!(matches!(type_lookup(Some(&answer)), TypeLookup::Unknown));
}

#[test]
fn lookup_that_failed() {
    assert!(matches!(type_lookup(None), TypeLookup::Failed));
    assert!(matches!(type_lookup(Some(&parse(r#"{"errors":[{"message":"no"}]}"#))), TypeLookup::Failed));
    assert!(matches!(type_lookup(Some(&parse(r#"{"data":null}"#))), TypeLookup::Failed));
    assert!(matches!(type_lookup(Some(&parse(r#"{"data":{}}"#))), TypeLookup::Failed));
}

#[test]
fn from_reply_to_rendering() {
    let body = r#"{"data":{"__type":{"kind":"OBJECT","name":"Mission","fields":[{"name":"crew","args":[{"name":"first","type":{"kind":"SCALAR","name":"Int"}}],"type":{"kind":"NON_NULL","name":null,"ofType":{"kind":"LIST","name":null,"ofType":{"kind":"OBJECT","name":"Astronaut"}}}}]}}}"#;
    let reply = HttpReply::Received { code: 200, status: "200 OK".to_string(), body: body.to_string() };
    let doc = fetch_query(reply).unwrap();
    match type_lookup(Some(&doc)) {
        TypeLookup::Found(node) => {
            assert_eq!(type_to_sdl(&node), Some("type Mission {\n  crew(first: Int): [Astronaut]!\n}\n".to_string()));
        },
        other => panic!("unexpected: {:?}", other),
    }
}

#[test]
fn reference_cut_off_by_the_depth_of_the_query_does_not_resolve() {
    let v = parse(
        r#"{"kind":"NON_NULL","name":null,"ofType":{"kind":"LIST","name":null,"ofType":{"kind":"NON_NULL","name":null}}}"#,
    );
    let t = type_ref_from_json(&v);
    assert_eq!(unwrap_named_type(&t), None);
    assert_eq!(type_ref_to_sdl(&t), "[!]!");
}
