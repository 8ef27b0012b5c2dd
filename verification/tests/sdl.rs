use graphql_mcp::graphql_client::{
    args_to_sdl, field_to_sdl, input_field_to_sdl, type_to_sdl,
};
use graphql_mcp::schema::{ArgNode, EnumValueNode, FieldNode, TypeNode, TypeRef};

fn named(kind: &str, name: &str) -> TypeRef {
    TypeRef { kind: kind.to_string(), name: name.to_string(), of_type: None }
}

fn wrapper(kind: &str, inner: TypeRef) -> TypeRef {
    TypeRef { kind: kind.to_string(), name: String::new(), of_type: Some(Box::new(inner)) }
}

fn arg(name: &str, type_ref: TypeRef) -> ArgNode {
    ArgNode { name: name.to_string(), description: None, type_ref }
}

fn field(name: &str, args: Vec<ArgNode>, type_ref: TypeRef) -> FieldNode {
    FieldNode { name: Some(name.to_string()), description: None, args, type_ref }
}

fn node(kind: &str, name: &str) -> TypeNode {
    TypeNode {
        kind: kind.to_string(),
        name: name.to_string(),
        description: None,
        fields: None,
        input_fields: None,
        enum_values: None,
        possible_types: None,
    }
}

#[test]
fn object_with_id_and_tags() {
    let mut t = node("OBJECT", "Item");
    t.fields = Some(vec![
        field("id", vec![], wrapper("NON_NULL", named("SCALAR", "ID"))),
        field("tags", vec![], wrapper("LIST", named("SCALAR", "String"))),
    ]);
    let sdl = type_to_sdl(&t).unwrap();
    assert_eq!(sdl, "type Item {\n  id: ID!\n  tags: [String]\n}\n");
    assert!(sdl.starts_with("type Item {\n"));
    assert!(sdl.ends_with("}\n"));
    assert!(sdl.lines().any(|l| l.trim() == "id: ID!"));
    assert!(sdl.lines().any(|l| l.trim() == "tags: [String]"));
}

#[test]
fn rendering_twice_gives_the_same_bytes() {
    let mut t = node("OBJECT", "Item");
    t.fields = Some(vec![field(
        "find",
        vec![arg("where", named("INPUT_OBJECT", "Filter"))],
        wrapper("LIST", named("OBJECT", "Item")),
    )]);
    let first = type_to_sdl(&t);
    let second = type_to_sdl(&t);
    assert_eq!(first, second);
    assert_eq!(first.unwrap().as_bytes(), second.unwrap().as_bytes());
}

#[test]
fn object_without_fields() {
    assert_eq!(type_to_sdl(&node("OBJECT", "Empty")), Some("type Empty {\n}\n".to_string()));
    let mut t = node("OBJECT", "Empty");
    t.fields = Some(vec![]);
    assert_eq!(type_to_sdl(&t), Some("type Empty {\n}\n".to_string()));
}

#[test]
fn input_object() {
    let mut t = node("INPUT_OBJECT", "Filter");
    t.input_fields = Some(vec![
        arg("name", named("SCALAR", "String")),
        arg("ids", wrapper("LIST", wrapper("NON_NULL", named("SCALAR", "ID")))),
    ]);
    assert_eq!(type_to_sdl(&t), Some("input Filter {\n  name: String\n  ids: [ID!]\n}\n".to_string()));
}

#[test]
fn input_object_ignores_object_fields() {
    let mut t = node("INPUT_OBJECT", "Filter");
    t.fields = Some(vec![field("x", vec![], named("SCALAR", "Int"))]);
    assert_eq!(type_to_sdl(&t), Some("input Filter {\n}\n".to_string()));
}

#[test]
fn enum_type() {
    let mut t = node("ENUM", "Role");
    t.enum_values = Some(vec![
        EnumValueNode { name: Some("PILOT".to_string()), description: None },
        EnumValueNode { name: Some("ENGINEER".to_string()), description: Some("fixes".to_string()) },
    ]);
    assert_eq!(type_to_sdl(&t), Some("enum Role {\n  PILOT\n  ENGINEER\n}\n".to_string()));
}

#[test]
fn enum_value_without_name_is_left_out() {
    let mut t = node("ENUM", "Role");
    t.enum_values = Some(vec![
        EnumValueNode { name: Some("A".to_string()), description: None },
        EnumValueNode { name: None, description: None },
        EnumValueNode { name: Some("".to_string()), description: None },
        EnumValueNode { name: Some("B".to_string()), description: None },
    ]);
    assert_eq!(type_to_sdl(&t), Some("enum Role {\n  A\n  \n  B\n}\n".to_string()));
}

#[test]
fn scalar_type() {
    assert_eq!(type_to_sdl(&node("SCALAR", "DateTime")), Some("scalar DateTime\n".to_string()));
}

#[test]
fn interface_has_empty_braces() {
    let mut t = node("INTERFACE", "Node");
    t.fields = Some(vec![field("id", vec![], named("SCALAR", "ID"))]);
    t.possible_types = Some(vec!["Astronaut".to_string()]);
    assert_eq!(type_to_sdl(&t), Some("interface Node {}\n".to_string()));
}

#[test]
fn union_members_are_left_out() {
    let mut t = node("UNION", "SearchResult");
    t.possible_types = Some(vec!["Astronaut".to_string(), "Mission".to_string()]);
    assert_eq!(type_to_sdl(&t), Some("union SearchResult = ...\n".to_string()));
}

#[test]
fn other_kinds_have_no_rendering() {
    assert_eq!(type_to_sdl(&node("LIST", "Odd")), None);
    assert_eq!(type_to_sdl(&node("NON_NULL", "Odd")), None);
    assert_eq!(type_to_sdl(&node("", "Odd")), None);
    assert_eq!(type_to_sdl(&node("object", "Odd")), None);
}

#[test]
fn type_without_name_has_no_rendering() {
    assert_eq!(type_to_sdl(&node("OBJECT", "")), None);
    assert_eq!(type_to_sdl(&node("SCALAR", "")), None);
}

#[test]
fn field_without_args_has_no_parentheses() {
    let f = field("id", vec![], wrapper("NON_NULL", named("SCALAR", "ID")));
    assert_eq!(field_to_sdl(&f), "  id: ID!");
}

#[test]
fn field_with_one_arg() {
    let f = field(
        "astronaut",
        vec![arg("id", wrapper("NON_NULL", named("SCALAR", "ID")))],
        named("OBJECT", "Astronaut"),
    );
    assert_eq!(field_to_sdl(&f), "  astronaut(id: ID!): Astronaut");
}

#[test]
fn field_with_several_args() {
    let f = field(
        "astronauts",
        vec![
            arg("where", named("INPUT_OBJECT", "AstronautFilter")),
            arg("first", named("SCALAR", "Int")),
            arg("after", named("SCALAR", "String")),
        ],
        wrapper("NON_NULL", named("OBJECT", "AstronautConnection")),
    );
    assert_eq!(
        field_to_sdl(&f),
        "  astronauts(where: AstronautFilter, first: Int, after: String): AstronautConnection!"
    );
}

#[test]
fn field_without_name() {
    let f = FieldNode { name: None, description: None, args: vec![], type_ref: named("SCALAR", "Int") };
    assert_eq!(field_to_sdl(&f), "  : Int");
}

#[test]
fn args_are_joined_by_comma_and_space() {
    assert_eq!(args_to_sdl(&vec![]), "");
    assert_eq!(args_to_sdl(&vec![arg("a", named("SCALAR", "Int"))]), "a: Int");
    assert_eq!(
        args_to_sdl(&vec![arg("a", named("SCALAR", "Int")), arg("b", wrapper("LIST", named("SCALAR", "Int")))]),
        "a: Int, b: [Int]"
    );
}

#[test]
fn input_field_line() {
    assert_eq!(input_field_to_sdl(&arg("limit", wrapper("NON_NULL", named("SCALAR", "Int")))), "  limit: Int!");
    assert_eq!(input_field_to_sdl(&arg("", named("SCALAR", "Int"))), "  : Int");
}

#[test]
fn copies_render_alike() {
    let f = field(
        "astronaut",
        vec![ArgNode {
            name: "id".to_string(),
            description: Some("the id".to_string()),
            type_ref: wrapper("NON_NULL", named("SCALAR", "ID")),
        }],
        named("OBJECT", "Astronaut"),
    );
    let copy = f.clone();
    assert_eq!(copy.name, f.name);
    assert_eq!(copy.args.len(), 1);
    assert_eq!(copy.args[0].description, Some("the id".to_string()));
    assert_eq!(field_to_sdl(&copy), field_to_sdl(&f));
}
