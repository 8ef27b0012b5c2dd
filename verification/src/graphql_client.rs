//! Resolution of type references and rendering of introspected types in
//! schema definition language.

use vstd::prelude::*;
use crate::introspection::{
    escape_name, escape_text, is_plain_char, is_string_body, lemma_escape_is_string_body,
    lemma_escape_plain, TYPE_QUERY_HEAD, TYPE_QUERY_TAIL,
};
use crate::schema::{
    args_view, enum_values_view, fields_view, ArgNode, ArgView, EnumValueNode, EnumValueView,
    FieldNode, FieldView, TypeNode, TypeRef, TypeRefView, TypeView,
};
use crate::text::{join, lemma_join_push, opt_text, str_eq, text_or_empty};

verus! {

/// The innermost named type of a reference: the name and kind of the first
/// node along the chain that carries a non-empty name, or `None` when the
/// chain ends before one is found.
pub open spec fn resolve_named(t: TypeRefView) -> Option<(Seq<char>, Seq<char>)>
    decreases t,
{
    if t.name.len() > 0 {
        Some((t.name, t.kind))
    } else {
        match t.of_type {
            Some(inner) => resolve_named(*inner),
            None => None,
        }
    }
}

/// The view of a resolution result.
pub open spec fn named_view(r: Option<(String, String)>) -> Option<(Seq<char>, Seq<char>)> {
    match r {
        Some((name, kind)) => Some((name@, kind@)),
        None => None,
    }
}

/// Unwraps a type reference to its innermost named type, as `(name, kind)`.
/// A reference made of wrappers only gives `None`.
pub fn unwrap_named_type(t: &TypeRef) -> (r: Option<(String, String)>)
    ensures
        named_view(r) == resolve_named(t@),
    decreases t,
{
    if !t.name.as_str().is_empty() {
        return Some((t.name.clone(), t.kind.clone()));
    }
    match &t.of_type {
        Some(inner) => unwrap_named_type(inner),
        None => None,
    }
}

/// Whether no node along the chain carries a name.
pub open spec fn is_anonymous(t: TypeRefView) -> bool
    decreases t,
{
    &&& t.name.len() == 0
    &&& match t.of_type {
        Some(inner) => is_anonymous(*inner),
        None => true,
    }
}

/// A reference wrapped in nameless nodes of the given kinds, the first kind
/// innermost and the last one outermost.
pub open spec fn wrap_in(t: TypeRefView, kinds: Seq<Seq<char>>) -> TypeRefView
    decreases kinds.len(),
{
    if kinds.len() == 0 {
        t
    } else {
        TypeRefView {
            kind: kinds.last(),
            name: Seq::empty(),
            of_type: Some(Box::new(wrap_in(t, kinds.drop_last()))),
        }
    }
}

/// Resolving a reference twice gives the same name and kind: any two
/// results of `unwrap_named_type` on one reference have the same view.
pub proof fn lemma_resolve_idempotent(
    t: TypeRef,
    first: Option<(String, String)>,
    second: Option<(String, String)>,
)
    requires
        named_view(first) == resolve_named(t@),
        named_view(second) == resolve_named(t@),
    ensures
        named_view(first) == named_view(second),
{
}

/// However many wrappers stand around a named type, and of whatever kinds in
/// whatever order, the reference resolves to that type's name and kind.
pub proof fn lemma_resolve_wrapped(t: TypeRefView, kinds: Seq<Seq<char>>)
    requires
        t.name.len() > 0,
    ensures
        resolve_named(wrap_in(t, kinds)) == Some((t.name, t.kind)),
    decreases kinds.len(),
{
    if kinds.len() > 0 {
        lemma_resolve_wrapped(t, kinds.drop_last());
    }
}

/// A reference resolves to nothing exactly when no node of its chain
/// carries a name; and what it resolves to has a non-empty name.
pub proof fn lemma_resolve_none_iff_anonymous(t: TypeRefView)
    ensures
        resolve_named(t) is None <==> is_anonymous(t),
        resolve_named(t) matches Some((name, _)) ==> name.len() > 0,
    decreases t,
{
    if t.name.len() == 0 {
        match t.of_type {
            Some(inner) => {
                lemma_resolve_none_iff_anonymous(*inner);
            },
            None => {},
        }
    }
}

/// The rendering of the node below a wrapper: empty when there is none.
pub open spec fn render_inner(inner: Option<Box<TypeRefView>>) -> Seq<char>
    decreases inner,
{
    match inner {
        Some(t) => render_type_ref(*t),
        None => Seq::empty(),
    }
}

/// A type reference in schema definition language: `!` after what a
/// `NON_NULL` wraps, square brackets around what a `LIST` wraps, and the bare
/// name for every other kind.
pub open spec fn render_type_ref(t: TypeRefView) -> Seq<char>
    decreases t,
{
    if t.kind == "NON_NULL"@ {
        render_inner(t.of_type) + "!"@
    } else if t.kind == "LIST"@ {
        "["@ + render_inner(t.of_type) + "]"@
    } else {
        t.name
    }
}

/// Renders a type reference in schema definition language.
pub fn type_ref_to_sdl(typ: &TypeRef) -> (r: String)
    ensures
        r@ == render_type_ref(typ@),
    decreases typ,
{
    if str_eq(typ.kind.as_str(), "NON_NULL") {
        let mut s = match &typ.of_type {
            Some(inner) => type_ref_to_sdl(inner),
            None => String::new(),
        };
        s.append("!");
        s
    } else if str_eq(typ.kind.as_str(), "LIST") {
        let mut s = String::from_str("[");
        match &typ.of_type {
            Some(inner) => {
                let rendered = type_ref_to_sdl(inner);
                s.append(rendered.as_str());
            },
            None => {},
        }
        s.append("]");
        s
    } else {
        typ.name.clone()
    }
}

/// One argument as it stands in a signature: `name: Type`.
pub open spec fn arg_sdl(a: ArgView) -> Seq<char> {
    a.name + ": "@ + render_type_ref(a.type_ref)
}

/// The arguments of a signature, separated by a comma and a space.
pub open spec fn args_sdl(args: Seq<ArgView>) -> Seq<char> {
    join(Seq::new(args.len(), |i: int| arg_sdl(args[i])), ", "@)
}

/// Renders the arguments of a signature, separated by a comma and a space.
pub fn args_to_sdl(args: &Vec<ArgNode>) -> (r: String)
    ensures
        r@ == args_sdl(args_view(args@)),
{
    let mut s = String::new();
    let ghost views = args_view(args@);
    let ghost mut parts: Seq<Seq<char>> = Seq::empty();
    let mut i: usize = 0;
    while i < args.len()
        invariant
            i <= args.len(),
            views == args_view(args@),
            parts == Seq::new(i as nat, |j: int| arg_sdl(views[j])),
            s@ == join(parts, ", "@),
        decreases args.len() - i,
    {
        let arg = &args[i];
        proof {
            lemma_join_push(parts, ", "@, arg_sdl(views[i as int]));
        }
        if i > 0 {
            s.append(", ");
        }
        s.append(arg.name.as_str());
        s.append(": ");
        let rendered = type_ref_to_sdl(&arg.type_ref);
        s.append(rendered.as_str());
        proof {
            let piece = arg_sdl(views[i as int]);
            parts = parts.push(piece);
        }
        i += 1;
    }
    s
}

/// The parenthesised argument list of a field; nothing at all for a field
/// without arguments.
pub open spec fn arg_group(args: Seq<ArgView>) -> Seq<char> {
    if args.len() == 0 {
        Seq::empty()
    } else {
        "("@ + args_sdl(args) + ")"@
    }
}

/// One field as a line of a type's body, without the line end:
/// two spaces, the name, the argument group, a colon and the type.
pub open spec fn field_sdl(f: FieldView) -> Seq<char> {
    "  "@ + text_or_empty(f.name) + arg_group(f.args) + ": "@ + render_type_ref(f.type_ref)
}

/// Renders one field as a line of a type's body, without the line end.
pub fn field_to_sdl(f: &FieldNode) -> (r: String)
    ensures
        r@ == field_sdl(f@),
{
    let mut s = String::from_str("  ");
    match &f.name {
        Some(name) => {
            s.append(name.as_str());
        },
        None => {},
    }
    if f.args.len() > 0 {
        let joined = args_to_sdl(&f.args);
        s.append("(");
        s.append(joined.as_str());
        s.append(")");
    } else {
    }
    s.append(": ");
    let rendered = type_ref_to_sdl(&f.type_ref);
    s.append(rendered.as_str());
    s
}

/// One field of an input object as a line of its body, without the line
/// end: two spaces, the name, a colon and the type.
pub open spec fn input_field_sdl(f: ArgView) -> Seq<char> {
    "  "@ + f.name + ": "@ + render_type_ref(f.type_ref)
}

/// Renders one field of an input object, without the line end.
pub fn input_field_to_sdl(f: &ArgNode) -> (r: String)
    ensures
        r@ == input_field_sdl(f@),
{
    let mut s = String::from_str("  ");
    s.append(f.name.as_str());
    s.append(": ");
    let rendered = type_ref_to_sdl(&f.type_ref);
    s.append(rendered.as_str());
    s
}

/// The body lines of an object type: each field's line, each ended by a
/// line end.
pub open spec fn field_lines(fields: Seq<FieldView>) -> Seq<char>
    decreases fields.len(),
{
    if fields.len() == 0 {
        Seq::empty()
    } else {
        field_lines(fields.drop_last()) + field_sdl(fields.last()) + "\n"@
    }
}

/// The body lines of an input object: each field's line, each ended by a
/// line end.
pub open spec fn input_field_lines(fields: Seq<ArgView>) -> Seq<char>
    decreases fields.len(),
{
    if fields.len() == 0 {
        Seq::empty()
    } else {
        input_field_lines(fields.drop_last()) + input_field_sdl(fields.last()) + "\n"@
    }
}

/// The line of one enum value: two spaces, the name and a line end. A value
/// without a name has no line.
pub open spec fn enum_value_line(v: EnumValueView) -> Seq<char> {
    match v.name {
        Some(name) => "  "@ + name + "\n"@,
        None => Seq::empty(),
    }
}

/// The body lines of an enum type.
pub open spec fn enum_value_lines(values: Seq<EnumValueView>) -> Seq<char>
    decreases values.len(),
{
    if values.len() == 0 {
        Seq::empty()
    } else {
        enum_value_lines(values.drop_last()) + enum_value_line(values.last())
    }
}

/// The lines of an optional list of fields; none where the list is absent.
pub open spec fn opt_field_lines(fields: Option<Seq<FieldView>>) -> Seq<char> {
    match fields {
        Some(f) => field_lines(f),
        None => Seq::empty(),
    }
}

/// The lines of an optional list of input fields.
pub open spec fn opt_input_field_lines(fields: Option<Seq<ArgView>>) -> Seq<char> {
    match fields {
        Some(f) => input_field_lines(f),
        None => Seq::empty(),
    }
}

/// The lines of an optional list of enum values.
pub open spec fn opt_enum_value_lines(values: Option<Seq<EnumValueView>>) -> Seq<char> {
    match values {
        Some(v) => enum_value_lines(v),
        None => Seq::empty(),
    }
}

/// A type in schema definition language. A type without a name, or of a
/// kind other than the six below, has no rendering.
///
/// The body of an interface and the members of a union are left out on
/// purpose: an interface renders with empty braces, a union with `...`.
pub open spec fn type_sdl(t: TypeView) -> Option<Seq<char>> {
    if t.name.len() == 0 {
        None
    } else if t.kind == "OBJECT"@ {
        Some("type "@ + t.name + " {\n"@ + opt_field_lines(t.fields) + "}\n"@)
    } else if t.kind == "INPUT_OBJECT"@ {
        Some("input "@ + t.name + " {\n"@ + opt_input_field_lines(t.input_fields) + "}\n"@)
    } else if t.kind == "ENUM"@ {
        Some("enum "@ + t.name + " {\n"@ + opt_enum_value_lines(t.enum_values) + "}\n"@)
    } else if t.kind == "SCALAR"@ {
        Some("scalar "@ + t.name + "\n"@)
    } else if t.kind == "INTERFACE"@ {
        Some("interface "@ + t.name + " {}\n"@)
    } else if t.kind == "UNION"@ {
        Some("union "@ + t.name + " = ...\n"@)
    } else {
        None
    }
}

/// Appends the body lines of an object type to `s`.
fn push_field_lines(s: &mut String, fields: &Vec<FieldNode>)
    ensures
        final(s)@ == old(s)@ + field_lines(fields_view(fields@)),
{
    let ghost views = fields_view(fields@);
    let ghost start = s@;
    let mut i: usize = 0;
    while i < fields.len()
        invariant
            i <= fields.len(),
            views == fields_view(fields@),
            s@ == start + field_lines(views.take(i as int)),
        decreases fields.len() - i,
    {
        let line = field_to_sdl(&fields[i]);
        s.append(line.as_str());
        s.append("\n");
        proof {
            let next = views.take(i + 1);
            assert(next.drop_last() =~= views.take(i as int));
        }
        i += 1;
    }
    assert(views.take(fields.len() as int) =~= views);
}

/// Appends the body lines of an input object to `s`.
fn push_input_field_lines(s: &mut String, fields: &Vec<ArgNode>)
    ensures
        final(s)@ == old(s)@ + input_field_lines(args_view(fields@)),
{
    let ghost views = args_view(fields@);
    let ghost start = s@;
    let mut i: usize = 0;
    while i < fields.len()
        invariant
            i <= fields.len(),
            views == args_view(fields@),
            s@ == start + input_field_lines(views.take(i as int)),
        decreases fields.len() - i,
    {
        let line = input_field_to_sdl(&fields[i]);
        s.append(line.as_str());
        s.append("\n");
        proof {
            let next = views.take(i + 1);
            assert(next.drop_last() =~= views.take(i as int));
        }
        i += 1;
    }
    assert(views.take(fields.len() as int) =~= views);
}

/// Appends the body lines of an enum type to `s`.
fn push_enum_value_lines(s: &mut String, values: &Vec<EnumValueNode>)
    ensures
        final(s)@ == old(s)@ + enum_value_lines(enum_values_view(values@)),
{
    let ghost views = enum_values_view(values@);
    let ghost start = s@;
    let mut i: usize = 0;
    while i < values.len()
        invariant
            i <= values.len(),
            views == enum_values_view(values@),
            s@ == start + enum_value_lines(views.take(i as int)),
        decreases values.len() - i,
    {
        match &values[i].name {
            Some(name) => {
                s.append("  ");
                s.append(name.as_str());
                s.append("\n");
            },
            None => {},
        }
        proof {
            let next = views.take(i + 1);
            assert(next.drop_last() =~= views.take(i as int));
        }
        i += 1;
    }
    assert(views.take(values.len() as int) =~= views);
}

/// The opening of a block: the keyword with its space, the name, and an
/// opening brace at the end of the line.
fn open_block(keyword: &str, name: &str) -> (r: String)
    ensures
        r@ == keyword@ + name@ + " {\n"@,
{
    let mut s = String::from_str(keyword);
    s.append(name);
    s.append(" {\n");
    s
}

/// Renders one introspected type in schema definition language, or gives
/// `None` for a type without a name or of a kind that has no rendering.
pub fn type_to_sdl(t: &TypeNode) -> (r: Option<String>)
    ensures
        opt_text(r) == type_sdl(t@),
{
    let name = t.name.as_str();
    if name.is_empty() {
        return None;
    }
    let kind = t.kind.as_str();
    if str_eq(kind, "OBJECT") {
        let mut s = open_block("type ", name);
        match &t.fields {
            Some(fields) => {
                push_field_lines(&mut s, fields);
            },
            None => {},
        }
        s.append("}\n");
        Some(s)
    } else if str_eq(kind, "INPUT_OBJECT") {
        let mut s = open_block("input ", name);
        match &t.input_fields {
            Some(fields) => {
                push_input_field_lines(&mut s, fields);
            },
            None => {},
        }
        s.append("}\n");
        Some(s)
    } else if str_eq(kind, "ENUM") {
        let mut s = open_block("enum ", name);
        match &t.enum_values {
            Some(values) => {
                push_enum_value_lines(&mut s, values);
            },
            None => {},
        }
        s.append("}\n");
        Some(s)
    } else if str_eq(kind, "SCALAR") {
        let mut s = String::from_str("scalar ");
        s.append(name);
        s.append("\n");
        Some(s)
    } else if str_eq(kind, "INTERFACE") {
        let mut s = String::from_str("interface ");
        s.append(name);
        s.append(" {}\n");
        Some(s)
    } else if str_eq(kind, "UNION") {
        let mut s = String::from_str("union ");
        s.append(name);
        s.append(" = ...\n");
        Some(s)
    } else {
        None
    }
}

/// Rendering a type twice gives the same text: any two results of
/// `type_to_sdl` on one type have the same view.
pub proof fn lemma_type_sdl_idempotent(t: TypeNode, first: Option<String>, second: Option<String>)
    requires
        opt_text(first) == type_sdl(t@),
        opt_text(second) == type_sdl(t@),
    ensures
        opt_text(first) == opt_text(second),
{
}

/// A type has a rendering exactly when it has a name and its kind is one
/// of the six that are rendered.
pub proof fn lemma_type_sdl_some_iff(t: TypeView)
    ensures
        type_sdl(t) is Some <==> t.name.len() > 0 && (t.kind == "OBJECT"@ || t.kind
            == "INPUT_OBJECT"@ || t.kind == "ENUM"@ || t.kind == "SCALAR"@ || t.kind
            == "INTERFACE"@ || t.kind == "UNION"@),
{
}

/// The query that asks for the full description of the type called
/// `typename`: the fixed text with the escaped name in its place.
pub open spec fn type_query_text(typename: Seq<char>) -> Seq<char> {
    TYPE_QUERY_HEAD@ + escape_text(typename) + TYPE_QUERY_TAIL@
}

/// Builds the introspection query for one named type. The name is escaped,
/// so that no name can end the string literal it stands in.
pub fn introspect_type_query(typename: &str) -> (r: String)
    ensures
        r@ == type_query_text(typename@),
{
    let mut s = String::from_str(TYPE_QUERY_HEAD);
    let escaped = escape_name(typename);
    s.append(escaped.as_str());
    s.append(TYPE_QUERY_TAIL);
    s
}

/// No name breaks out of the query: between the fixed head and the fixed
/// tail stands a text that cannot end the string literal it is written
/// into. A name of plain characters stands there as it is.
pub proof fn lemma_type_query_is_closed(typename: Seq<char>)
    ensures
        exists|body: Seq<char>| #[trigger]
            is_string_body(body) && type_query_text(typename) == TYPE_QUERY_HEAD@ + body
                + TYPE_QUERY_TAIL@,
        (forall|i: int| 0 <= i < typename.len() ==> is_plain_char(#[trigger] typename[i]))
            ==> type_query_text(typename) == TYPE_QUERY_HEAD@ + typename + TYPE_QUERY_TAIL@,
{
    lemma_escape_is_string_body(typename);
    assert(is_string_body(escape_text(typename)));
    if forall|i: int| 0 <= i < typename.len() ==> is_plain_char(#[trigger] typename[i]) {
        lemma_escape_plain(typename);
    }
}

} // verus!
