//! The shape of one query field: its signature, the input objects that its
//! arguments refer to, and what its return type looks like when held against
//! the usual conventions of pagination.

use vstd::prelude::*;
use crate::graphql_client::{named_view, resolve_named, unwrap_named_type};
use crate::schema::{
    args_view, fields_view, ArgNode, ArgView, FieldNode, FieldView, TypeNode, TypeRef, TypeRefView,
    TypeView,
};
use crate::text::{opt_text, str_eq};

verus! {

/// The view of an optional type description.
pub open spec fn opt_type_view(node: Option<TypeNode>) -> Option<TypeView> {
    match node {
        Some(n) => Some(n@),
        None => None,
    }
}

/// One entry of the input objects: the name of a type and what the server
/// said of it, `None` where it knew no type of that name.
#[derive(Debug)]
pub struct InputObject {
    pub name: String,
    pub node: Option<TypeNode>,
}

/// The mapping that a list of entries stands for; of two entries with one
/// name the later counts.
pub open spec fn entries_map(entries: Seq<InputObject>) -> Map<Seq<char>, Option<TypeView>>
    decreases entries.len(),
{
    if entries.len() == 0 {
        Map::empty()
    } else {
        entries_map(entries.drop_last()).insert(
            entries.last().name@,
            opt_type_view(entries.last().node),
        )
    }
}

/// Whether no name occurs twice among the entries.
pub open spec fn distinct_names(entries: Seq<InputObject>) -> bool {
    forall|i: int, j: int|
        0 <= i < j < entries.len() ==> (#[trigger] entries[i]).name@ != (#[trigger] entries[j]).name@
}

/// The descriptions of the input objects that a field's arguments refer to,
/// by the name of the type. Each name is held once.
#[derive(Debug)]
pub struct InputObjects {
    entries: Vec<InputObject>,
}

impl InputObjects {
    #[verifier::type_invariant]
    spec fn names_are_distinct(self) -> bool {
        distinct_names(self.entries@)
    }

    /// The entries in the order in which their names first came.
    pub closed spec fn entries_view(self) -> Seq<InputObject> {
        self.entries@
    }

    /// No input objects.
    pub fn new() -> (r: Self)
        ensures
            r@ == Map::<Seq<char>, Option<TypeView>>::empty(),
            r.entries_view().len() == 0,
    {
        InputObjects { entries: Vec::new() }
    }

    /// The entries, each name once.
    pub fn entries(&self) -> (r: &Vec<InputObject>)
        ensures
            r@ == self.entries_view(),
            distinct_names(r@),
            entries_map(r@) == self@,
    {
        proof {
            use_type_invariant(self);
        }
        &self.entries
    }

    /// Sets what is held under `name`, in place of what was held there.
    pub fn insert(self, name: String, node: Option<TypeNode>) -> (r: Self)
        ensures
            r@ == self@.insert(name@, opt_type_view(node)),
    {
        proof {
            use_type_invariant(&self);
        }
        let mut entries = self.entries;
        let ghost before = entries@;
        let mut i: usize = 0;
        while i < entries.len()
            invariant
                i <= entries.len(),
                entries@ == before,
                distinct_names(before),
                entries_map(before) == self@,
                forall|j: int| 0 <= j < i ==> (#[trigger] entries[j]).name@ != name@,
            decreases entries.len() - i,
        {
            if str_eq(entries[i].name.as_str(), name.as_str()) {
                proof {
                    lemma_replace_entry(before, i as int, InputObject { name, node });
                }
                entries.set(i, InputObject { name, node });
                return InputObjects { entries };
            }
            i += 1;
        }
        entries.push(InputObject { name, node });
        proof {
            assert(entries@.drop_last() =~= before);
        }
        InputObjects { entries }
    }
}

impl View for InputObjects {
    type V = Map<Seq<char>, Option<TypeView>>;

    closed spec fn view(&self) -> Map<Seq<char>, Option<TypeView>> {
        entries_map(self.entries@)
    }
}

/// Replacing the entry of a name by another entry of that name sets what
/// the mapping holds under the name, and keeps the names distinct.
pub proof fn lemma_replace_entry(entries: Seq<InputObject>, at: int, entry: InputObject)
    requires
        distinct_names(entries),
        0 <= at < entries.len(),
        entries[at].name@ == entry.name@,
    ensures
        distinct_names(entries.update(at, entry)),
        entries_map(entries.update(at, entry)) == entries_map(entries).insert(
            entry.name@,
            opt_type_view(entry.node),
        ),
    decreases entries.len(),
{
    let updated = entries.update(at, entry);
    let front = entries.drop_last();
    if at == entries.len() - 1 {
        assert(updated.drop_last() =~= front);
    } else {
        assert(distinct_names(front));
        lemma_replace_entry(front, at, entry);
        assert(updated.drop_last() =~= front.update(at, entry));
    }
}

/// What one request for the description of a type gave.
#[derive(Debug)]
pub enum TypeLookup {
    /// The request failed, or its answer held no place for a type.
    Failed,
    /// The server answered that it knows no type of that name.
    Unknown,
    /// The server described the type.
    Found(TypeNode),
}

pub enum TypeLookupView {
    Failed,
    Unknown,
    Found(TypeView),
}

impl View for TypeLookup {
    type V = TypeLookupView;

    open spec fn view(&self) -> TypeLookupView {
        match *self {
            TypeLookup::Failed => TypeLookupView::Failed,
            TypeLookup::Unknown => TypeLookupView::Unknown,
            TypeLookup::Found(node) => TypeLookupView::Found(node@),
        }
    }
}

/// An argument of the field with the named type that its type resolves to,
/// as `(name, kind)`, where it resolves.
#[derive(Debug)]
pub struct SignatureArg {
    pub arg: ArgNode,
    pub named: Option<(String, String)>,
}

pub struct SignatureArgView {
    pub arg: ArgView,
    pub named: Option<(Seq<char>, Seq<char>)>,
}

impl View for SignatureArg {
    type V = SignatureArgView;

    open spec fn view(&self) -> SignatureArgView {
        SignatureArgView { arg: self.arg@, named: named_view(self.named) }
    }
}

/// The views of a list of annotated arguments, in order.
pub open spec fn signature_view(args: Seq<SignatureArg>) -> Seq<SignatureArgView> {
    Seq::new(args.len(), |i: int| args[i]@)
}

/// Each argument with the named type that its type resolves to.
pub open spec fn signature_args(args: Seq<ArgView>) -> Seq<SignatureArgView> {
    Seq::new(
        args.len(),
        |i: int| SignatureArgView { arg: args[i], named: resolve_named(args[i].type_ref) },
    )
}

/// Annotates each argument with the named type that its type resolves to.
pub fn annotate_args(args: &Vec<ArgNode>) -> (r: Vec<SignatureArg>)
    ensures
        signature_view(r@) == signature_args(args_view(args@)),
{
    let mut out: Vec<SignatureArg> = Vec::new();
    let mut i: usize = 0;
    while i < args.len()
        invariant
            i <= args.len(),
            out.len() == i,
            forall|j: int|
                0 <= j < i ==> (#[trigger] out[j])@ == (SignatureArgView {
                    arg: args[j]@,
                    named: resolve_named(args[j]@.type_ref),
                }),
        decreases args.len() - i,
    {
        let named = unwrap_named_type(&args[i].type_ref);
        out.push(SignatureArg { arg: args[i].clone(), named });
        i += 1;
    }
    out
}

/// Whether a type has a field of exactly this name.
pub open spec fn has_field(fields: Option<Seq<FieldView>>, name: Seq<char>) -> bool {
    match fields {
        Some(f) => exists|i: int| 0 <= i < f.len() && (#[trigger] f[i]).name == Some(name),
        None => false,
    }
}

/// Tells whether a type has a field of exactly this name.
#[verifier::loop_isolation(false)]
pub fn has_field_named(fields: &Option<Vec<FieldNode>>, name: &str) -> (r: bool)
    ensures
        r == has_field(opt_fields(*fields), name@),
{
    match fields {
        Some(list) => {
            let mut i: usize = 0;
            while i < list.len()
                invariant
                    i <= list.len(),
                    forall|j: int| 0 <= j < i ==> (#[trigger] list[j])@.name != Some(name@),
                decreases list.len() - i,
            {
                match &list[i].name {
                    Some(n) => {
                        if str_eq(n.as_str(), name) {
                            assert(fields_view(list@)[i as int].name == Some(name@));
                            return true;
                        }
                    },
                    None => {},
                }
                i += 1;
            }
            false
        },
        None => false,
    }
}

/// The views of the fields of a type, where it has any.
pub open spec fn opt_fields(fields: Option<Vec<FieldNode>>) -> Option<Seq<FieldView>> {
    match fields {
        Some(f) => Some(fields_view(f@)),
        None => None,
    }
}

/// Whether a field is called `a` or `b` and has a type that resolves.
pub open spec fn is_resolved_field(f: FieldView, a: Seq<char>, b: Seq<char>) -> bool {
    (f.name == Some(a) || f.name == Some(b)) && resolve_named(f.type_ref) is Some
}

/// The name of the type that a reference resolves to.
pub open spec fn resolved_name(t: TypeRefView) -> Option<Seq<char>> {
    match resolve_named(t) {
        Some((name, _)) => Some(name),
        None => None,
    }
}

/// The name of the type of the first field, at or after `from`, that is
/// called `a` or `b` and whose type resolves.
pub open spec fn first_resolved_from(
    fields: Seq<FieldView>,
    a: Seq<char>,
    b: Seq<char>,
    from: int,
) -> Option<Seq<char>>
    decreases fields.len() - from,
{
    if from < 0 || from >= fields.len() {
        None
    } else if is_resolved_field(fields[from], a, b) {
        resolved_name(fields[from].type_ref)
    } else {
        first_resolved_from(fields, a, b, from + 1)
    }
}

/// The name of the type of the first field that is called `a` or `b` and
/// whose type resolves; `None` for a type without such a field.
pub open spec fn first_resolved(fields: Option<Seq<FieldView>>, a: Seq<char>, b: Seq<char>) -> Option<
    Seq<char>,
> {
    match fields {
        Some(f) => first_resolved_from(f, a, b, 0),
        None => None,
    }
}

/// Finds the first field that is called `a` or `b` and whose type
/// resolves, and gives the name of that type.
#[verifier::loop_isolation(false)]
pub fn first_resolved_type(fields: &Option<Vec<FieldNode>>, a: &str, b: &str) -> (r: Option<String>)
    ensures
        opt_text(r) == first_resolved(opt_fields(*fields), a@, b@),
{
    match fields {
        Some(list) => {
            let ghost views = fields_view(list@);
            let mut i: usize = 0;
            while i < list.len()
                invariant
                    i <= list.len(),
                    views == fields_view(list@),
                    first_resolved_from(views, a@, b@, 0) == first_resolved_from(
                        views,
                        a@,
                        b@,
                        i as int,
                    ),
                decreases list.len() - i,
            {
                let named = match &list[i].name {
                    Some(n) => str_eq(n.as_str(), a) || str_eq(n.as_str(), b),
                    None => false,
                };
                if named {
                    match unwrap_named_type(&list[i].type_ref) {
                        Some((name, _)) => {
                            return Some(name);
                        },
                        None => {},
                    }
                }
                i += 1;
            }
            None
        },
        None => None,
    }
}

/// What the return type of a field looks like. The five marks say whether
/// the type has a field of the name that a common convention of pagination
/// uses; they are advisory, and a type that pages under other names has
/// none of them.
#[derive(Debug)]
pub struct ReturnShape {
    pub named_return_type: String,
    /// The description of the return type; `None` where the server knew no
    /// type of that name.
    pub type_details: Option<TypeNode>,
    pub has_total_count: bool,
    pub has_results: bool,
    pub has_nodes: bool,
    pub has_edges: bool,
    pub has_page_info: bool,
    /// The type of the elements that the field pages through, where it
    /// could be told.
    pub element_type: Option<String>,
}

pub struct ReturnShapeView {
    pub named_return_type: Seq<char>,
    pub type_details: Option<TypeView>,
    pub has_total_count: bool,
    pub has_results: bool,
    pub has_nodes: bool,
    pub has_edges: bool,
    pub has_page_info: bool,
    pub element_type: Option<Seq<char>>,
}

impl View for ReturnShape {
    type V = ReturnShapeView;

    open spec fn view(&self) -> ReturnShapeView {
        ReturnShapeView {
            named_return_type: self.named_return_type@,
            type_details: opt_type_view(self.type_details),
            has_total_count: self.has_total_count,
            has_results: self.has_results,
            has_nodes: self.has_nodes,
            has_edges: self.has_edges,
            has_page_info: self.has_page_info,
            element_type: opt_text(self.element_type),
        }
    }
}

/// The shape of a return type of which the server knew nothing.
pub open spec fn unknown_shape(name: Seq<char>) -> ReturnShapeView {
    ReturnShapeView {
        named_return_type: name,
        type_details: None,
        has_total_count: false,
        has_results: false,
        has_nodes: false,
        has_edges: false,
        has_page_info: false,
        element_type: None,
    }
}

/// The shape of a return type, read off its description: the five marks,
/// and as the element type the type of its `results` or `nodes` field.
pub open spec fn classify(name: Seq<char>, node: TypeView) -> ReturnShapeView {
    ReturnShapeView {
        named_return_type: name,
        type_details: Some(node),
        has_total_count: has_field(node.fields, "totalCount"@),
        has_results: has_field(node.fields, "results"@),
        has_nodes: has_field(node.fields, "nodes"@),
        has_edges: has_field(node.fields, "edges"@),
        has_page_info: has_field(node.fields, "pageInfo"@),
        element_type: first_resolved(node.fields, "results"@, "nodes"@),
    }
}

/// The type behind the `edges` of a return type, which has to be looked at
/// where the return type itself does not give the element type.
pub open spec fn edges_type(node: TypeView) -> Option<Seq<char>> {
    if first_resolved(node.fields, "results"@, "nodes"@) is Some {
        None
    } else {
        first_resolved(node.fields, "edges"@, "edges"@)
    }
}

/// The element type that the type behind `edges` gives: the type of its
/// `node` field.
pub open spec fn node_type(edge: TypeView) -> Option<Seq<char>> {
    first_resolved(edge.fields, "node"@, "node"@)
}

/// The shape of a return type of which the server knew nothing.
pub fn unknown_return_shape(name: String) -> (r: ReturnShape)
    ensures
        r@ == unknown_shape(name@),
{
    ReturnShape {
        named_return_type: name,
        type_details: None,
        has_total_count: false,
        has_results: false,
        has_nodes: false,
        has_edges: false,
        has_page_info: false,
        element_type: None,
    }
}

/// Reads the shape of a return type off its description, and says which
/// type, if any, has to be looked at next to find the element type.
pub fn classify_return_type(name: String, node: TypeNode) -> (r: (ReturnShape, Option<String>))
    ensures
        r.0@ == classify(name@, node@),
        opt_text(r.1) == edges_type(node@),
{
    let has_total_count = has_field_named(&node.fields, "totalCount");
    let has_results = has_field_named(&node.fields, "results");
    let has_nodes = has_field_named(&node.fields, "nodes");
    let has_edges = has_field_named(&node.fields, "edges");
    let has_page_info = has_field_named(&node.fields, "pageInfo");
    let element_type = first_resolved_type(&node.fields, "results", "nodes");
    let edges = if element_type.is_some() {
        None
    } else {
        first_resolved_type(&node.fields, "edges", "edges")
    };
    let shape = ReturnShape {
        named_return_type: name,
        type_details: Some(node),
        has_total_count,
        has_results,
        has_nodes,
        has_edges,
        has_page_info,
        element_type,
    };
    (shape, edges)
}

/// What the analysis of one query field gives.
#[derive(Debug)]
pub struct FieldShape {
    /// The name of the field.
    pub field: String,
    /// The arguments, each with the named type it resolves to.
    pub args: Vec<SignatureArg>,
    /// The type that the field returns.
    pub type_ref: TypeRef,
    pub description: Option<String>,
    /// The descriptions of the types that the arguments resolve to.
    pub input_objects: InputObjects,
    /// The shape of the return type; `None` where the type of the field
    /// does not resolve or its description could not be had.
    pub return_shape: Option<ReturnShape>,
}

pub struct FieldShapeView {
    pub field: Seq<char>,
    pub args: Seq<SignatureArgView>,
    pub type_ref: TypeRefView,
    pub description: Option<Seq<char>>,
    pub input_objects: Map<Seq<char>, Option<TypeView>>,
    pub return_shape: Option<ReturnShapeView>,
}

/// The view of an optional return shape.
pub open spec fn opt_shape_view(shape: Option<ReturnShape>) -> Option<ReturnShapeView> {
    match shape {
        Some(s) => Some(s@),
        None => None,
    }
}

impl View for FieldShape {
    type V = FieldShapeView;

    open spec fn view(&self) -> FieldShapeView {
        FieldShapeView {
            field: self.field@,
            args: signature_view(self.args@),
            type_ref: self.type_ref@,
            description: opt_text(self.description),
            input_objects: self.input_objects@,
            return_shape: opt_shape_view(self.return_shape),
        }
    }
}

} // verus!
