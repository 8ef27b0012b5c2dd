//! The explorer that hands out the whole schema at once, as one document
//! in schema definition language.

use vstd::prelude::*;
use crate::graphql_client::{type_sdl, type_to_sdl};
use crate::introspection::SCHEMA_QUERY;
use crate::json::{debug_json, json_member};
use crate::outcome::{answer_query, printed, response_outcome, ToolOutcome};
use crate::schema::{TypeNode, TypeView};

verus! {

/// The views of a list of types, in order.
pub open spec fn types_view(types: Seq<TypeNode>) -> Seq<TypeView> {
    Seq::new(types.len(), |i: int| types[i]@)
}

/// What one type adds to the document: its rendering and an empty line
/// after it, or nothing for a type that has no rendering.
pub open spec fn type_block(t: TypeView) -> Seq<char> {
    match type_sdl(t) {
        Some(text) => text + "\n"@,
        None => Seq::empty(),
    }
}

/// The document for a list of types: the block of each, in the order of
/// the list. A type that occurs twice is rendered twice.
pub open spec fn schema_sdl(types: Seq<TypeView>) -> Seq<char>
    decreases types.len(),
{
    if types.len() == 0 {
        Seq::empty()
    } else {
        schema_sdl(types.drop_last()) + type_block(types.last())
    }
}

/// Renders the types of a schema as one document, in the order given.
pub fn assemble_sdl(types: &Vec<TypeNode>) -> (r: String)
    ensures
        r@ == schema_sdl(types_view(types@)),
{
    let ghost views = types_view(types@);
    let mut sdl = String::new();
    let mut i: usize = 0;
    while i < types.len()
        invariant
            i <= types.len(),
            views == types_view(types@),
            sdl@ == schema_sdl(views.take(i as int)),
        decreases types.len() - i,
    {
        proof {
            let next = views.take(i + 1);
            assert(next.drop_last() =~= views.take(i as int));
        }
        match type_to_sdl(&types[i]) {
            Some(text) => {
                sdl.append(text.as_str());
                sdl.append("\n");
            },
            None => {},
        }
        i += 1;
    }
    assert(views.take(types.len() as int) =~= views);
    sdl
}

/// The document of a schema of which part is already rendered: the
/// document of two lists of types, one after the other, is the two
/// documents one after the other.
pub proof fn lemma_schema_sdl_concat(first: Seq<TypeView>, second: Seq<TypeView>)
    ensures
        schema_sdl(first + second) == schema_sdl(first) + schema_sdl(second),
    decreases second.len(),
{
    if second.len() == 0 {
    } else {
        lemma_schema_sdl_concat(first, second.drop_last());
        assert((first + second).drop_last() =~= first + second.drop_last());
    }
}

/// The query that asks for all types of the schema.
pub fn introspect_schema_query() -> (r: String)
    ensures
        r@ == SCHEMA_QUERY@,
{
    String::from_str(SCHEMA_QUERY)
}

/// An explorer of one endpoint that answers with the whole schema.
#[derive(Debug)]
pub struct Explorer {
    pub endpoint: String,
}

impl Clone for Explorer {
    fn clone(&self) -> (r: Self)
        ensures
            r.endpoint == self.endpoint,
    {
        Explorer { endpoint: self.endpoint.clone() }
    }
}

impl Explorer {
    /// An explorer of the endpoint at this address.
    pub fn new(endpoint: String) -> (r: Self)
        ensures
            r.endpoint == endpoint,
    {
        Explorer { endpoint }
    }

    /// The schema as one document, from the types that the endpoint
    /// listed; the empty document where it listed none.
    pub fn get_full_schema(&self, types: Option<&Vec<TypeNode>>) -> (r: String)
        ensures
            r@ == match types {
                Some(list) => schema_sdl(types_view(list@)),
                None => Seq::<char>::empty(),
            },
    {
        match types {
            Some(list) => assemble_sdl(list),
            None => String::new(),
        }
    }

    /// Makes the answer for the response to a query that was passed
    /// through to the endpoint.
    pub fn execute_query(&self, response: &serde_json::Value) -> (r: ToolOutcome)
        ensures
            r@ == response_outcome(
                json_member(*response, "errors"@) is Some,
                printed(*response),
                debug_json(*response),
            ),
    {
        answer_query(response)
    }
}

} // verus!
