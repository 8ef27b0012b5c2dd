//! Reading the answers to introspection queries: from the JSON documents
//! that the endpoint sends to the descriptions that the rest of the crate
//! works on. Whatever is missing or of another JSON type than expected is
//! read as absent; nothing is refused.

use vstd::prelude::*;
use crate::graphql_fullschema::types_view;
use crate::json::{
    json_as_array, json_as_str, json_at, json_depth, json_get, json_is_null, json_items,
    json_member, json_null, json_pointer, json_text,
};
use crate::schema::{
    args_view, enum_values_view, fields_view, texts_view, ArgNode, ArgView, EnumValueNode,
    EnumValueView, FieldNode, FieldView, TypeNode, TypeRef, TypeRefView, TypeView,
};
use crate::shape::{TypeLookup, TypeLookupView};
use crate::text::{opt_text, text_or_empty};

verus! {

/// The text under a key of a document; `None` where the key is missing or
/// holds no string.
pub open spec fn member_text(v: serde_json::Value, key: Seq<char>) -> Option<Seq<char>> {
    match json_member(v, key) {
        Some(m) => json_text(m),
        None => None,
    }
}

/// The elements under a key of a document; `None` where the key is missing
/// or holds no array.
pub open spec fn member_items(v: serde_json::Value, key: Seq<char>) -> Option<
    Seq<serde_json::Value>,
> {
    match json_member(v, key) {
        Some(m) => json_items(m),
        None => None,
    }
}

/// Reads the text under a key of a document.
pub fn text_member(v: &serde_json::Value, key: &str) -> (r: Option<String>)
    ensures
        opt_text(r) == member_text(*v, key@),
{
    match json_get(v, key) {
        Some(m) => match json_as_str(m) {
            Some(s) => Some(String::from_str(s)),
            None => None,
        },
        None => None,
    }
}

/// Reads the text under a key of a document, empty where there is none.
pub fn text_member_or_empty(v: &serde_json::Value, key: &str) -> (r: String)
    ensures
        r@ == text_or_empty(member_text(*v, key@)),
{
    match text_member(v, key) {
        Some(s) => s,
        None => String::new(),
    }
}

/// The reference that stands for a missing one: no kind, no name, nothing
/// below.
pub open spec fn empty_type_ref() -> TypeRefView {
    TypeRefView { kind: Seq::empty(), name: Seq::empty(), of_type: None }
}

/// Whether `t` is the type reference that the document `v` holds: kind and
/// name are the texts under `kind` and `name`, and what stands under
/// `ofType`, unless it is missing or `null`, is the reference below.
pub open spec fn is_type_ref_of(t: TypeRefView, v: serde_json::Value) -> bool
    decreases t,
{
    &&& t.kind == text_or_empty(member_text(v, "kind"@))
    &&& t.name == text_or_empty(member_text(v, "name"@))
    &&& match json_member(v, "ofType"@) {
        Some(inner) => if json_null(inner) {
            t.of_type is None
        } else {
            match t.of_type {
                Some(below) => is_type_ref_of(*below, inner),
                None => false,
            }
        },
        None => t.of_type is None,
    }
}

/// A document holds one type reference and no other.
pub proof fn lemma_type_ref_of_unique(a: TypeRefView, b: TypeRefView, v: serde_json::Value)
    requires
        is_type_ref_of(a, v),
        is_type_ref_of(b, v),
    ensures
        a == b,
    decreases a,
{
    match json_member(v, "ofType"@) {
        Some(inner) => {
            if !json_null(inner) {
                lemma_type_ref_of_unique(*a.of_type->0, *b.of_type->0, inner);
            }
        },
        None => {},
    }
}

/// Reads a type reference from a document.
pub fn type_ref_from_json(v: &serde_json::Value) -> (r: TypeRef)
    ensures
        is_type_ref_of(r@, *v),
    decreases json_depth(*v),
{
    let kind = text_member_or_empty(v, "kind");
    let name = text_member_or_empty(v, "name");
    let of_type = match json_get(v, "ofType") {
        Some(inner) => {
            if json_is_null(inner) {
                None
            } else {
                Some(Box::new(type_ref_from_json(inner)))
            }
        },
        None => None,
    };
    TypeRef { kind, name, of_type }
}

/// Whether `t` is the type reference under the key `type` of a document;
/// the empty reference where the key is missing.
pub open spec fn is_type_member_of(t: TypeRefView, v: serde_json::Value) -> bool {
    match json_member(v, "type"@) {
        Some(m) => is_type_ref_of(t, m),
        None => t == empty_type_ref(),
    }
}

/// Reads the type reference under the key `type` of a document.
pub fn type_member(v: &serde_json::Value) -> (r: TypeRef)
    ensures
        is_type_member_of(r@, *v),
{
    match json_get(v, "type") {
        Some(m) => type_ref_from_json(m),
        None => TypeRef { kind: String::new(), name: String::new(), of_type: None },
    }
}

/// Whether `a` is the argument, or input field, that a document holds.
pub open spec fn is_arg_of(a: ArgView, v: serde_json::Value) -> bool {
    &&& a.name == text_or_empty(member_text(v, "name"@))
    &&& a.description == member_text(v, "description"@)
    &&& is_type_member_of(a.type_ref, v)
}

/// Reads an argument, or input field, from a document.
pub fn arg_from_json(v: &serde_json::Value) -> (r: ArgNode)
    ensures
        is_arg_of(r@, *v),
{
    ArgNode {
        name: text_member_or_empty(v, "name"),
        description: text_member(v, "description"),
        type_ref: type_member(v),
    }
}

/// Whether `args` are the arguments that the documents hold, one for one.
pub open spec fn is_args_of(args: Seq<ArgView>, items: Seq<serde_json::Value>) -> bool {
    &&& args.len() == items.len()
    &&& forall|i: int| 0 <= i < args.len() ==> is_arg_of(#[trigger] args[i], items[i])
}

/// Reads arguments from a list of documents.
pub fn args_from_json(items: &Vec<serde_json::Value>) -> (r: Vec<ArgNode>)
    ensures
        is_args_of(args_view(r@), items@),
{
    let mut out: Vec<ArgNode> = Vec::new();
    let mut i: usize = 0;
    while i < items.len()
        invariant
            i <= items.len(),
            out.len() == i,
            forall|j: int| 0 <= j < i ==> is_arg_of((#[trigger] out[j])@, items[j]),
        decreases items.len() - i,
    {
        out.push(arg_from_json(&items[i]));
        i += 1;
    }
    out
}

/// Whether `f` is the field that a document holds. Arguments that are
/// missing are none.
pub open spec fn is_field_of(f: FieldView, v: serde_json::Value) -> bool {
    &&& f.name == member_text(v, "name"@)
    &&& f.description == member_text(v, "description"@)
    &&& match member_items(v, "args"@) {
        Some(items) => is_args_of(f.args, items),
        None => f.args.len() == 0,
    }
    &&& is_type_member_of(f.type_ref, v)
}

/// Reads a field from a document.
pub fn field_from_json(v: &serde_json::Value) -> (r: FieldNode)
    ensures
        is_field_of(r@, *v),
{
    let args = match json_get(v, "args") {
        Some(m) => match json_as_array(m) {
            Some(items) => args_from_json(items),
            None => Vec::new(),
        },
        None => Vec::new(),
    };
    FieldNode {
        name: text_member(v, "name"),
        description: text_member(v, "description"),
        args,
        type_ref: type_member(v),
    }
}

/// Whether `fields` are the fields that the documents hold, one for one.
pub open spec fn is_fields_of(fields: Seq<FieldView>, items: Seq<serde_json::Value>) -> bool {
    &&& fields.len() == items.len()
    &&& forall|i: int| 0 <= i < fields.len() ==> is_field_of(#[trigger] fields[i], items[i])
}

/// Reads fields from a list of documents.
pub fn fields_from_json(items: &Vec<serde_json::Value>) -> (r: Vec<FieldNode>)
    ensures
        is_fields_of(fields_view(r@), items@),
{
    let mut out: Vec<FieldNode> = Vec::new();
    let mut i: usize = 0;
    while i < items.len()
        invariant
            i <= items.len(),
            out.len() == i,
            forall|j: int| 0 <= j < i ==> is_field_of((#[trigger] out[j])@, items[j]),
        decreases items.len() - i,
    {
        out.push(field_from_json(&items[i]));
        i += 1;
    }
    out
}

/// Whether `values` are the enum values that the documents hold, one for
/// one.
pub open spec fn is_enum_values_of(values: Seq<EnumValueView>, items: Seq<serde_json::Value>) -> bool {
    &&& values.len() == items.len()
    &&& forall|i: int|
        0 <= i < values.len() ==> (#[trigger] values[i]).name == member_text(items[i], "name"@)
            && values[i].description == member_text(items[i], "description"@)
}

/// Reads enum values from a list of documents.
pub fn enum_values_from_json(items: &Vec<serde_json::Value>) -> (r: Vec<EnumValueNode>)
    ensures
        is_enum_values_of(enum_values_view(r@), items@),
{
    let mut out: Vec<EnumValueNode> = Vec::new();
    let mut i: usize = 0;
    while i < items.len()
        invariant
            i <= items.len(),
            out.len() == i,
            forall|j: int|
                0 <= j < i ==> (#[trigger] out[j])@.name == member_text(items[j], "name"@)
                    && out[j]@.description == member_text(items[j], "description"@),
        decreases items.len() - i,
    {
        let item = &items[i];
        out.push(
            EnumValueNode {
                name: text_member(item, "name"),
                description: text_member(item, "description"),
            },
        );
        i += 1;
    }
    out
}

/// Whether `names` are the names that the documents hold, one for one; a
/// document without a name gives the empty name.
pub open spec fn is_names_of(names: Seq<Seq<char>>, items: Seq<serde_json::Value>) -> bool {
    &&& names.len() == items.len()
    &&& forall|i: int|
        0 <= i < names.len() ==> #[trigger] names[i] == text_or_empty(
            member_text(items[i], "name"@),
        )
}

/// Reads the names from a list of documents.
pub fn names_from_json(items: &Vec<serde_json::Value>) -> (r: Vec<String>)
    ensures
        is_names_of(texts_view(r@), items@),
{
    let mut out: Vec<String> = Vec::new();
    let mut i: usize = 0;
    while i < items.len()
        invariant
            i <= items.len(),
            out.len() == i,
            forall|j: int|
                0 <= j < i ==> (#[trigger] out[j])@ == text_or_empty(member_text(items[j], "name"@)),
        decreases items.len() - i,
    {
        out.push(text_member_or_empty(&items[i], "name"));
        i += 1;
    }
    out
}

/// Whether `t` is the description of a type that a document holds. Each
/// list is there exactly where the document has an array under its key.
pub open spec fn is_type_of(t: TypeView, v: serde_json::Value) -> bool {
    &&& t.kind == text_or_empty(member_text(v, "kind"@))
    &&& t.name == text_or_empty(member_text(v, "name"@))
    &&& t.description == member_text(v, "description"@)
    &&& match member_items(v, "fields"@) {
        Some(items) => match t.fields {
            Some(fields) => is_fields_of(fields, items),
            None => false,
        },
        None => t.fields is None,
    }
    &&& match member_items(v, "inputFields"@) {
        Some(items) => match t.input_fields {
            Some(fields) => is_args_of(fields, items),
            None => false,
        },
        None => t.input_fields is None,
    }
    &&& match member_items(v, "enumValues"@) {
        Some(items) => match t.enum_values {
            Some(values) => is_enum_values_of(values, items),
            None => false,
        },
        None => t.enum_values is None,
    }
    &&& match member_items(v, "possibleTypes"@) {
        Some(items) => match t.possible_types {
            Some(names) => is_names_of(names, items),
            None => false,
        },
        None => t.possible_types is None,
    }
}

/// Reads the elements under a key of a document.
fn items_member<'a>(v: &'a serde_json::Value, key: &str) -> (r: Option<&'a Vec<serde_json::Value>>)
    ensures
        match r {
            Some(items) => member_items(*v, key@) == Some(items@),
            None => member_items(*v, key@) is None,
        },
{
    match json_get(v, key) {
        Some(m) => json_as_array(m),
        None => None,
    }
}

/// Reads the description of a type from a document.
pub fn type_node_from_json(v: &serde_json::Value) -> (r: TypeNode)
    ensures
        is_type_of(r@, *v),
{
    let fields = match items_member(v, "fields") {
        Some(items) => Some(fields_from_json(items)),
        None => None,
    };
    let input_fields = match items_member(v, "inputFields") {
        Some(items) => Some(args_from_json(items)),
        None => None,
    };
    let enum_values = match items_member(v, "enumValues") {
        Some(items) => Some(enum_values_from_json(items)),
        None => None,
    };
    let possible_types = match items_member(v, "possibleTypes") {
        Some(items) => Some(names_from_json(items)),
        None => None,
    };
    TypeNode {
        kind: text_member_or_empty(v, "kind"),
        name: text_member_or_empty(v, "name"),
        description: text_member(v, "description"),
        fields,
        input_fields,
        enum_values,
        possible_types,
    }
}

/// The elements of the array that a JSON pointer leads to; `None` where it
/// leads nowhere or to no array.
pub open spec fn items_at(v: serde_json::Value, pointer: Seq<char>) -> Option<
    Seq<serde_json::Value>,
> {
    match json_at(v, pointer) {
        Some(m) => json_items(m),
        None => None,
    }
}

/// Reads the fields of the query root from the answer to the query for the
/// type `Query`; `None` where the answer lists none.
pub fn root_fields(response: &serde_json::Value) -> (r: Option<Vec<FieldNode>>)
    ensures
        match items_at(*response, "/data/__type/fields"@) {
            Some(items) => r matches Some(fields) && is_fields_of(fields_view(fields@), items),
            None => r is None,
        },
{
    match json_pointer(response, "/data/__type/fields") {
        Some(m) => match json_as_array(m) {
            Some(items) => Some(fields_from_json(items)),
            None => None,
        },
        None => None,
    }
}

/// Whether `types` are the descriptions that the documents hold, one for
/// one.
pub open spec fn is_types_of(types: Seq<TypeView>, items: Seq<serde_json::Value>) -> bool {
    &&& types.len() == items.len()
    &&& forall|i: int| 0 <= i < types.len() ==> is_type_of(#[trigger] types[i], items[i])
}

/// Reads the types of the schema from the answer to the query for the
/// schema; `None` where the answer lists none.
pub fn schema_types(response: &serde_json::Value) -> (r: Option<Vec<TypeNode>>)
    ensures
        match items_at(*response, "/data/__schema/types"@) {
            Some(items) => r matches Some(types) && is_types_of(types_view(types@), items),
            None => r is None,
        },
{
    match json_pointer(response, "/data/__schema/types") {
        Some(m) => match json_as_array(m) {
            Some(items) => {
                let mut out: Vec<TypeNode> = Vec::new();
                let mut i: usize = 0;
                while i < items.len()
                    invariant
                        i <= items.len(),
                        out.len() == i,
                        forall|j: int| 0 <= j < i ==> is_type_of((#[trigger] out[j])@, items[j]),
                    decreases items.len() - i,
                {
                    out.push(type_node_from_json(&items[i]));
                    i += 1;
                }
                Some(out)
            },
            None => None,
        },
        None => None,
    }
}

/// Whether `lookup` is what the answer to the query for one type amounts
/// to: a failure where there is no answer or it has no place for a type,
/// an unknown type where that place holds `null`, and the description
/// that stands there otherwise.
pub open spec fn is_lookup_of(lookup: TypeLookupView, response: Option<serde_json::Value>) -> bool {
    match response {
        Some(v) => match json_at(v, "/data/__type"@) {
            Some(m) => if json_null(m) {
                lookup == TypeLookupView::Unknown
            } else {
                match lookup {
                    TypeLookupView::Found(t) => is_type_of(t, m),
                    _ => false,
                }
            },
            None => lookup == TypeLookupView::Failed,
        },
        None => lookup == TypeLookupView::Failed,
    }
}

/// The document behind an optional reference.
pub open spec fn opt_document(response: Option<&serde_json::Value>) -> Option<serde_json::Value> {
    match response {
        Some(v) => Some(*v),
        None => None,
    }
}

/// Reads what became of the request for the description of one type:
/// `response` is the answer, `None` where the request failed.
pub fn type_lookup(response: Option<&serde_json::Value>) -> (r: TypeLookup)
    ensures
        is_lookup_of(r@, opt_document(response)),
{
    match response {
        Some(v) => match json_pointer(v, "/data/__type") {
            Some(m) => {
                if json_is_null(m) {
                    TypeLookup::Unknown
                } else {
                    TypeLookup::Found(type_node_from_json(m))
                }
            },
            None => TypeLookup::Failed,
        },
        None => TypeLookup::Failed,
    }
}

} // verus!
