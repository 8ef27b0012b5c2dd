use graphql_mcp::graphql_fullschema::{assemble_sdl, Explorer};
use graphql_mcp::schema::{ArgNode, EnumValueNode, FieldNode, TypeNode, TypeRef};

fn named(kind: &str, name: &str) -> TypeRef {
    TypeRef { kind: kind.to_string(), name: name.to_string(), of_type: None }
}

fn wrapper(kind: &str, inner: TypeRef) -> TypeRef {
    TypeRef { kind: kind.to_string(), name: String::new(), of_type: Some(Box::new(inner)) }
}

fn node(kind: &str, name: &str) -> TypeNode {
    TypeNode {
        kind: kind.to_string(),
        name: name.to_string(),
        description: None,
        fields: None,
        input_fields: None,
        enum_values: None,
        possible_types: None,
    }
}

fn schema() -> Vec<TypeNode> {
    let mut query = node("OBJECT", "Query");
    query.fields = Some(vec![FieldNode {
        name: Some("astronaut".to_string()),
        description: None,
        args: vec![ArgNode {
            name: "id".to_string(),
            description: None,
            type_ref: wrapper("NON_NULL", named("SCALAR", "ID")),
        }],
        type_ref: named("OBJECT", "Astronaut"),
    }]);
    let mut role = node("ENUM", "Role");
    role.enum_values = Some(vec![EnumValueNode { name: Some("PILOT".to_string()), description: None }]);
    vec![query, node("SCALAR", "ID"), node("MYSTERY", "Skipped"), role, node("OBJECT", "")]
}

#[test]
fn schema_is_assembled_in_the_order_given() {
    assert_eq!(
        assemble_sdl(&schema()),
        "type Query {\n  astronaut(id: ID!): Astronaut\n}\n\nscalar ID\n\nenum Role {\n  PILOT\n}\n\n"
    );
}

#[test]
fn empty_schema_is_the_empty_document() {
    assert_eq!(assemble_sdl(&vec![]), "");
    assert_eq!(assemble_sdl(&vec![node("MYSTERY", "X"), node("SCALAR", "")]), "");
}

#[test]
fn duplicate_types_are_rendered_twice() {
    let types = vec![node("SCALAR", "ID"), node("UNION", "U"), node("SCALAR", "ID")];
    assert_eq!(assemble_sdl(&types), "scalar ID\n\nunion U = ...\n\nscalar ID\n\n");
}

#[test]
fn order_is_not_changed() {
    let types = vec![node("SCALAR", "Zeta"), node("SCALAR", "Alpha")];
    assert_eq!(assemble_sdl(&types), "scalar Zeta\n\nscalar Alpha\n\n");
}

#[test]
fn explorer_gives_the_full_schema() {
    let explorer = Explorer::new("http://127.0.0.1:8000".to_string());
    assert_eq!(explorer.endpoint, "http://127.0.0.1:8000");
    let types = schema();
    assert_eq!(explorer.get_full_schema(Some(&types)), assemble_sdl(&types));
    assert_eq!(explorer.get_full_schema(None), "");
}

#[test]
fn fullschema_explorer_answers_a_query() {
    let explorer = Explorer::new("http://h".to_string());
    let mut map = serde_json::Map::new();
    map.insert("errors".to_string(), serde_json::Value::String("x".to_string()));
    let out = explorer.execute_query(&serde_json::Value::Object(map));
    assert!(out.is_error);
    assert_eq!(out.text, "{\n  \"errors\": \"x\"\n}");
}

#[test]
fn document_of_two_lists_is_the_two_documents() {
    let mut all = schema();
    let second = vec![node("SCALAR", "DateTime"), node("INTERFACE", "Node")];
    let first_doc = assemble_sdl(&all);
    let second_doc = assemble_sdl(&second);
    all.push(node("SCALAR", "DateTime"));
    all.push(node("INTERFACE", "Node"));
    assert_eq!(assemble_sdl(&all), format!("{}{}", first_doc, second_doc));
}
