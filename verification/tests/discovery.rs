use graphql_mcp::graphql_discovery::{list_query_fields, signature_to_sdl, Explorer, Rendering};
use graphql_mcp::schema::{ArgNode, FieldNode, TypeNode, TypeRef};
use graphql_mcp::shape::TypeLookup;

fn named(kind: &str, name: &str) -> TypeRef {
    TypeRef { kind: kind.to_string(), name: name.to_string(), of_type: None }
}

fn wrapper(kind: &str, inner: TypeRef) -> TypeRef {
    TypeRef { kind: kind.to_string(), name: String::new(), of_type: Some(Box::new(inner)) }
}

fn anonymous() -> TypeRef {
    TypeRef { kind: "LIST".to_string(), name: String::new(), of_type: None }
}

fn arg(name: &str, type_ref: TypeRef) -> ArgNode {
    ArgNode { name: name.to_string(), description: None, type_ref }
}

fn field(name: &str, args: Vec<ArgNode>, type_ref: TypeRef) -> FieldNode {
    FieldNode { name: Some(name.to_string()), description: None, args, type_ref }
}

fn node(kind: &str, name: &str) -> TypeNode {
    TypeNode {
        kind: kind.to_string(),
        name: name.to_string(),
        description: None,
        fields: None,
        input_fields: None,
        enum_values: None,
        possible_types: None,
    }
}

fn explorer() -> Explorer {
    Explorer::new("http://127.0.0.1:8000".to_string())
}

fn begin(root: Vec<FieldNode>, name: &str) -> Rendering {
    explorer().inspect_field(Some(&root), name).unwrap()
}

#[test]
fn signature_always_has_parentheses() {
    let f = field("version", vec![], named("SCALAR", "String"));
    assert_eq!(signature_to_sdl("version", &f), "version(): String");
}

#[test]
fn signature_with_args() {
    let f = field(
        "astronauts",
        vec![arg("where", named("INPUT_OBJECT", "Filter")), arg("first", wrapper("NON_NULL", named("SCALAR", "Int")))],
        wrapper("LIST", named("OBJECT", "Astronaut")),
    );
    assert_eq!(signature_to_sdl("astronauts", &f), "astronauts(where: Filter, first: Int!): [Astronaut]");
}

#[test]
fn query_fields_are_listed_one_on_each_line() {
    let fields = vec![
        field("astronauts", vec![arg("first", named("SCALAR", "Int"))], wrapper("LIST", named("OBJECT", "Astronaut"))),
        FieldNode { name: None, description: None, args: vec![], type_ref: named("SCALAR", "Int") },
        field("version", vec![], wrapper("NON_NULL", named("SCALAR", "String"))),
    ];
    assert_eq!(
        list_query_fields(&fields),
        "astronauts(first: Int): [Astronaut]\n<unnamed>(): Int\nversion(): String!\n"
    );
    assert_eq!(explorer().get_query_fields(Some(&fields)), list_query_fields(&fields));
}

#[test]
fn no_query_fields_give_the_empty_text() {
    assert_eq!(list_query_fields(&vec![]), "");
    assert_eq!(explorer().get_query_fields(None), "");
}

#[test]
fn lenient_lookup_reports_under_the_name_asked_for() {
    let root = vec![field("astronauts", vec![], anonymous())];
    let r = begin(root, "ASTRONAUTS");
    assert!(r.is_done());
    assert_eq!(r.finish(), "# Field: ASTRONAUTS(): []\n# Input objects\n\n# Return type\n");
}

#[test]
fn missing_field_in_the_lenient_lookup() {
    let root = vec![
        field("astronauts", vec![], named("OBJECT", "A")),
        field("missions", vec![], named("OBJECT", "M")),
    ];
    let e = explorer().inspect_field(Some(&root), "launchpads").unwrap_err();
    assert_eq!(e.message(), "Field 'launchpads' not found on Query. Available fields: astronauts, missions");
    let e = explorer().inspect_field(None, "launchpads").unwrap_err();
    assert_eq!(e.message(), "Field 'launchpads' not found on Query. Available fields: <none>");
}

#[test]
fn field_with_input_object_and_return_type() {
    let root = vec![field(
        "astronauts",
        vec![arg("where", named("INPUT_OBJECT", "Filter")), arg("first", named("SCALAR", "Int"))],
        wrapper("LIST", named("OBJECT", "Astronaut")),
    )];
    let r = begin(root, "astronauts");
    assert_eq!(r.pending(), Some("Filter".to_string()));
    let mut filter = node("INPUT_OBJECT", "Filter");
    filter.input_fields = Some(vec![arg("name", named("SCALAR", "String"))]);
    let r = r.supply(TypeLookup::Found(filter));
    assert_eq!(r.pending(), Some("Int".to_string()));
    let r = r.supply(TypeLookup::Found(node("SCALAR", "Int")));
    assert_eq!(r.pending(), Some("Astronaut".to_string()));
    let mut astronaut = node("OBJECT", "Astronaut");
    astronaut.fields = Some(vec![field("id", vec![], wrapper("NON_NULL", named("SCALAR", "ID")))]);
    let r = r.supply(TypeLookup::Found(astronaut));
    assert!(r.is_done());
    assert_eq!(r.pending(), None);
    assert_eq!(
        r.finish(),
        "# Field: astronauts(where: Filter, first: Int): [Astronaut]\n# Input objects\ninput Filter {\n  name: String\n}\n\nscalar Int\n\n\n# Return type\ntype Astronaut {\n  id: ID!\n}\n\n"
    );
}

#[test]
fn failed_and_unknown_lookups_add_nothing() {
    let root = vec![field(
        "f",
        vec![
            arg("a", named("INPUT_OBJECT", "A")),
            arg("b", named("INPUT_OBJECT", "B")),
            arg("c", named("INPUT_OBJECT", "C")),
        ],
        named("OBJECT", "R"),
    )];
    let r = begin(root, "f")
        .supply(TypeLookup::Failed)
        .supply(TypeLookup::Found(node("INPUT_OBJECT", "B")))
        .supply(TypeLookup::Unknown)
        .supply(TypeLookup::Failed);
    assert!(r.is_done());
    assert_eq!(r.finish(), "# Field: f(a: A, b: B, c: C): R\n# Input objects\ninput B {\n}\n\n\n# Return type\n");
}

#[test]
fn type_without_rendering_adds_nothing() {
    let root = vec![field("f", vec![arg("a", named("INPUT_OBJECT", "A"))], named("OBJECT", "R"))];
    let r = begin(root, "f")
        .supply(TypeLookup::Found(node("INPUT_OBJECT", "")))
        .supply(TypeLookup::Found(node("MYSTERY", "R")));
    assert_eq!(r.finish(), "# Field: f(a: A): R\n# Input objects\n\n# Return type\n");
}

#[test]
fn args_that_do_not_resolve_are_passed_over() {
    let root = vec![field(
        "f",
        vec![arg("x", anonymous()), arg("a", named("INPUT_OBJECT", "A")), arg("y", anonymous())],
        anonymous(),
    )];
    let r = begin(root, "f");
    assert_eq!(r.pending(), Some("A".to_string()));
    let r = r.supply(TypeLookup::Found(node("SCALAR", "A")));
    assert!(r.is_done());
    assert_eq!(r.finish(), "# Field: f(x: [], a: A, y: []): []\n# Input objects\nscalar A\n\n\n# Return type\n");
}

#[test]
fn answer_after_the_end_changes_nothing() {
    let r = begin(vec![field("f", vec![], anonymous())], "f");
    let r = r.supply(TypeLookup::Found(node("SCALAR", "Late")));
    assert!(r.is_done());
    assert_eq!(r.finish(), "# Field: f(): []\n# Input objects\n\n# Return type\n");
}

#[test]
fn discovery_explorer_answers_a_query() {
    let mut map = serde_json::Map::new();
    map.insert("data".to_string(), serde_json::Value::Bool(true));
    let out = explorer().execute_query(&serde_json::Value::Object(map));
    assert!(!out.is_error);
    assert_eq!(out.text, "{\n  \"data\": true\n}");
}
