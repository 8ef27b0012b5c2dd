use graphql_mcp::lookup::{
    available_fields, find_field, find_named_arg, locate_field, matches_field, NameMatch, NotFound,
};
use graphql_mcp::schema::{ArgNode, FieldNode, TypeRef};

fn named(kind: &str, name: &str) -> TypeRef {
    TypeRef { kind: kind.to_string(), name: name.to_string(), of_type: None }
}

fn anonymous() -> TypeRef {
    TypeRef { kind: "LIST".to_string(), name: String::new(), of_type: None }
}

fn field(name: &str) -> FieldNode {
    FieldNode {
        name: Some(name.to_string()),
        description: None,
        args: vec![],
        type_ref: named("OBJECT", "T"),
    }
}

fn nameless() -> FieldNode {
    FieldNode { name: None, description: None, args: vec![], type_ref: named("OBJECT", "T") }
}

fn arg(name: &str, type_ref: TypeRef) -> ArgNode {
    ArgNode { name: name.to_string(), description: None, type_ref }
}

#[test]
fn finds_the_first_exact_match() {
    let fields = vec![field("astronauts"), field("missions"), field("astronauts")];
    assert_eq!(find_field(&fields, "astronauts", NameMatch::Exact), Some(0));
    assert_eq!(find_field(&fields, "missions", NameMatch::Exact), Some(1));
    assert_eq!(find_field(&fields, "launchpads", NameMatch::Exact), None);
    assert_eq!(find_field(&vec![], "astronauts", NameMatch::Exact), None);
}

#[test]
fn exact_match_minds_the_case() {
    let fields = vec![field("Astronauts"), field("astronauts")];
    assert_eq!(find_field(&fields, "astronauts", NameMatch::Exact), Some(1));
    assert_eq!(find_field(&fields, "ASTRONAUTS", NameMatch::Exact), None);
}

#[test]
fn lenient_match_forgives_ascii_case() {
    let fields = vec![field("missions"), field("Astronauts"), field("astronauts")];
    assert_eq!(find_field(&fields, "ASTRONAUTS", NameMatch::IgnoreAsciiCase), Some(1));
    assert_eq!(find_field(&fields, "mISSIONS", NameMatch::IgnoreAsciiCase), Some(0));
    assert_eq!(find_field(&fields, "mission", NameMatch::IgnoreAsciiCase), None);
}

#[test]
fn lenient_match_forgives_ascii_letters_only() {
    assert!(matches_field(&field("étoile"), "éTOILE", NameMatch::IgnoreAsciiCase));
    assert!(!matches_field(&field("étoile"), "ÉTOILE", NameMatch::IgnoreAsciiCase));
    assert!(!matches_field(&field("a_b"), "a-b", NameMatch::IgnoreAsciiCase));
    assert!(!matches_field(&field("@"), "`", NameMatch::IgnoreAsciiCase));
    assert!(!matches_field(&field("["), "{", NameMatch::IgnoreAsciiCase));
}

#[test]
fn field_without_name_matches_nothing() {
    assert!(!matches_field(&nameless(), "", NameMatch::Exact));
    assert!(!matches_field(&nameless(), "", NameMatch::IgnoreAsciiCase));
    assert!(matches_field(&field(""), "", NameMatch::Exact));
    assert_eq!(find_field(&vec![nameless(), field("a")], "a", NameMatch::Exact), Some(1));
}

#[test]
fn available_fields_are_listed_in_order() {
    assert_eq!(available_fields(&vec![field("astronauts"), field("missions")]), "astronauts, missions");
    assert_eq!(available_fields(&vec![field("only")]), "only");
    assert_eq!(available_fields(&vec![]), "");
}

#[test]
fn available_fields_leave_out_the_nameless() {
    let fields = vec![nameless(), field("a"), nameless(), field("b"), nameless()];
    assert_eq!(available_fields(&fields), "a, b");
    assert_eq!(available_fields(&vec![nameless()]), "");
}

#[test]
fn locate_gives_a_copy_of_the_field() {
    let mut second = field("missions");
    second.description = Some("all missions".to_string());
    let fields = vec![field("astronauts"), second];
    let found = locate_field(Some(&fields), "missions", NameMatch::Exact, "<none>").unwrap();
    assert_eq!(found.name, Some("missions".to_string()));
    assert_eq!(found.description, Some("all missions".to_string()));
}

#[test]
fn locate_reports_what_there_is() {
    let fields = vec![field("astronauts"), field("missions")];
    let e = locate_field(Some(&fields), "launchpads", NameMatch::Exact, "<none>").unwrap_err();
    assert_eq!(e.field_name, "launchpads");
    assert_eq!(e.available, "astronauts, missions");
}

#[test]
fn locate_without_a_list_uses_the_placeholder() {
    let e = locate_field(None, "launchpads", NameMatch::Exact, "<could not list>").unwrap_err();
    assert_eq!(e.field_name, "launchpads");
    assert_eq!(e.available, "<could not list>");
    assert_eq!(e.message(), "Field 'launchpads' not found on Query. Available fields: <could not list>");
}

#[test]
fn not_found_message_text() {
    let e = NotFound { field_name: "x".to_string(), available: "a, b".to_string() };
    assert_eq!(e.message(), "Field 'x' not found on Query. Available fields: a, b");
}

#[test]
fn named_args_are_found_in_order() {
    let args = vec![
        arg("a", anonymous()),
        arg("b", named("INPUT_OBJECT", "Filter")),
        arg("c", anonymous()),
        arg("d", named("SCALAR", "Int")),
    ];
    assert_eq!(find_named_arg(&args, 0), (1, Some("Filter".to_string())));
    assert_eq!(find_named_arg(&args, 1), (1, Some("Filter".to_string())));
    assert_eq!(find_named_arg(&args, 2), (3, Some("Int".to_string())));
    assert_eq!(find_named_arg(&args, 4), (4, None));
    assert_eq!(find_named_arg(&vec![arg("a", anonymous())], 0), (1, None));
    assert_eq!(find_named_arg(&vec![], 0), (0, None));
}
