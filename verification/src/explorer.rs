//! The explorer that answers with structured data: the analysis of one
//! query field, carried out as a sequence of requests for type descriptions
//! that the caller performs and whose answers it hands back.

use vstd::prelude::*;
use crate::decode::{is_fields_of, items_at, root_fields};
use crate::graphql_client::unwrap_named_type;
use crate::json::{debug_json, json_member};
use crate::lookup::{
    find_named_arg, lemma_next_named_arg, locate_field, located, next_named_arg, not_found,
    opt_fields_view, NameMatch, NotFound, NotFoundView,
};
use crate::outcome::{answer_query, printed, response_outcome, ToolOutcome};
use crate::schema::{fields_view, FieldNode, FieldView, TypeView};
use crate::shape::{
    annotate_args, classify, classify_return_type, edges_type, first_resolved_type, node_type,
    opt_shape_view, resolved_name, signature_args, unknown_return_shape, unknown_shape, FieldShape,
    FieldShapeView, InputObjects, ReturnShape, ReturnShapeView, TypeLookup, TypeLookupView,
};
use crate::text::{opt_text, text_or_empty};

verus! {

/// What the analysis of a field is waiting for.
#[derive(Clone, Copy, Debug, PartialEq, Eq, Structural)]
pub enum Phase {
    /// The description of the type of an argument.
    Inputs,
    /// The description of the return type.
    Return,
    /// The description of the type behind the `edges` of the return type.
    Edges,
    /// Nothing: the analysis is complete.
    Done,
}

/// The analysis of one field of the query root, under way. It names the
/// type whose description it needs next; the caller fetches that
/// description and supplies what came of it, until nothing is pending.
#[derive(Debug)]
pub struct Inspection {
    field_name: String,
    field: FieldNode,
    next_arg: usize,
    pending: Option<String>,
    phase: Phase,
    input_objects: InputObjects,
    return_shape: Option<ReturnShape>,
}

pub struct InspectionView {
    /// The name that was asked for.
    pub field_name: Seq<char>,
    /// The field that was found under it.
    pub field: FieldView,
    /// The position of the argument whose type is pending, while the
    /// analysis is at the arguments; their number afterwards.
    pub next_arg: int,
    /// The name of the type whose description is needed next.
    pub pending: Option<Seq<char>>,
    pub phase: Phase,
    pub input_objects: Map<Seq<char>, Option<TypeView>>,
    pub return_shape: Option<ReturnShapeView>,
}

/// The state once the arguments are through: the return type is pending
/// where the field's type resolves, and the analysis is complete where it
/// does not.
pub open spec fn after_inputs(s: InspectionView) -> InspectionView {
    match resolved_name(s.field.type_ref) {
        Some(name) => InspectionView {
            next_arg: s.field.args.len() as int,
            phase: Phase::Return,
            pending: Some(name),
            ..s
        },
        None => InspectionView {
            next_arg: s.field.args.len() as int,
            phase: Phase::Done,
            pending: None,
            ..s
        },
    }
}

/// The state that waits for the first argument at or after `from` whose
/// type resolves; past the last such argument, the state after the
/// arguments.
pub open spec fn seek_input(s: InspectionView, from: int) -> InspectionView {
    let i = next_named_arg(s.field.args, from);
    if i < s.field.args.len() {
        InspectionView {
            next_arg: i,
            phase: Phase::Inputs,
            pending: resolved_name(s.field.args[i].type_ref),
            ..s
        }
    } else {
        after_inputs(s)
    }
}

/// The state in which the analysis of a field begins.
pub open spec fn begin(field_name: Seq<char>, field: FieldView) -> InspectionView {
    seek_input(
        InspectionView {
            field_name,
            field,
            next_arg: 0,
            pending: None,
            phase: Phase::Done,
            input_objects: Map::empty(),
            return_shape: None,
        },
        0,
    )
}

/// The text of an optional name, for use where the option is known to hold
/// one.
pub open spec fn pending_name(s: InspectionView) -> Seq<char> {
    text_or_empty(s.pending)
}

/// The state after the answer to the pending request.
///
/// At the arguments, a description is filed under the name of the type, and
/// a failure files nothing; either way the next argument is turned to. At
/// the return type, a failure leaves the return shape out; a description is
/// classified, and where it gives no element type but has `edges`, the type
/// behind them is asked for. At the edges, the type of the `node` field, if
/// any, becomes the element type.
pub open spec fn step(s: InspectionView, lookup: TypeLookupView) -> InspectionView {
    match s.phase {
        Phase::Inputs => {
            let collected = match lookup {
                TypeLookupView::Failed => s.input_objects,
                TypeLookupView::Unknown => s.input_objects.insert(pending_name(s), None),
                TypeLookupView::Found(node) => s.input_objects.insert(pending_name(s), Some(node)),
            };
            seek_input(InspectionView { input_objects: collected, ..s }, s.next_arg + 1)
        },
        Phase::Return => match lookup {
            TypeLookupView::Failed => InspectionView { phase: Phase::Done, pending: None, ..s },
            TypeLookupView::Unknown => InspectionView {
                phase: Phase::Done,
                pending: None,
                return_shape: Some(unknown_shape(pending_name(s))),
                ..s
            },
            TypeLookupView::Found(node) => match edges_type(node) {
                Some(edges) => InspectionView {
                    phase: Phase::Edges,
                    pending: Some(edges),
                    return_shape: Some(classify(pending_name(s), node)),
                    ..s
                },
                None => InspectionView {
                    phase: Phase::Done,
                    pending: None,
                    return_shape: Some(classify(pending_name(s), node)),
                    ..s
                },
            },
        },
        Phase::Edges => match (lookup, s.return_shape) {
            (TypeLookupView::Found(edge), Some(shape)) => InspectionView {
                phase: Phase::Done,
                pending: None,
                return_shape: Some(ReturnShapeView { element_type: node_type(edge), ..shape }),
                ..s
            },
            _ => InspectionView { phase: Phase::Done, pending: None, ..s },
        },
        Phase::Done => s,
    }
}

/// What the analysis has found so far, as the result that the caller gets.
pub open spec fn shape_of(s: InspectionView) -> FieldShapeView {
    FieldShapeView {
        field: match s.field.name {
            Some(name) => name,
            None => s.field_name,
        },
        args: signature_args(s.field.args),
        type_ref: s.field.type_ref,
        description: s.field.description,
        input_objects: s.input_objects,
        return_shape: s.return_shape,
    }
}

/// What every state of an analysis satisfies: a request is pending exactly
/// until the analysis is complete, and it is the request that the phase
/// calls for.
pub open spec fn well_formed(s: InspectionView) -> bool {
    &&& 0 <= s.next_arg <= s.field.args.len()
    &&& match s.phase {
        Phase::Inputs => {
            &&& s.next_arg < s.field.args.len()
            &&& s.pending is Some
            &&& s.pending == resolved_name(s.field.args[s.next_arg].type_ref)
            &&& s.return_shape is None
        },
        Phase::Return => {
            &&& s.next_arg == s.field.args.len()
            &&& s.pending is Some
            &&& s.pending == resolved_name(s.field.type_ref)
            &&& s.return_shape is None
        },
        Phase::Edges => {
            &&& s.next_arg == s.field.args.len()
            &&& s.pending is Some
            &&& s.return_shape matches Some(shape)
            &&& shape.element_type is None
        },
        Phase::Done => s.pending is None && s.next_arg == s.field.args.len(),
    }
}

impl View for Inspection {
    type V = InspectionView;

    closed spec fn view(&self) -> InspectionView {
        InspectionView {
            field_name: self.field_name@,
            field: self.field@,
            next_arg: self.next_arg as int,
            pending: opt_text(self.pending),
            phase: self.phase,
            input_objects: self.input_objects@,
            return_shape: opt_shape_view(self.return_shape),
        }
    }
}

impl Inspection {
    #[verifier::type_invariant]
    spec fn inv(self) -> bool {
        well_formed(self@)
    }

    /// Turns to the first argument at or after `from` whose type resolves,
    /// or to the return type where there is none.
    fn seek(
        field_name: String,
        field: FieldNode,
        from: usize,
        input_objects: InputObjects,
    ) -> (r: Self)
        requires
            from <= field.args.len(),
        ensures
            r@ == seek_input(
                InspectionView {
                    field_name: field_name@,
                    field: field@,
                    next_arg: from as int,
                    pending: None,
                    phase: Phase::Done,
                    input_objects: input_objects@,
                    return_shape: None,
                },
                from as int,
            ),
    {
        let (i, name) = find_named_arg(&field.args, from);
        match name {
            Some(n) => Inspection {
                field_name,
                field,
                next_arg: i,
                pending: Some(n),
                phase: Phase::Inputs,
                input_objects,
                return_shape: None,
            },
            None => {
                let n = field.args.len();
                match unwrap_named_type(&field.type_ref) {
                    Some((name, _)) => Inspection {
                        field_name,
                        field,
                        next_arg: n,
                        pending: Some(name),
                        phase: Phase::Return,
                        input_objects,
                        return_shape: None,
                    },
                    None => Inspection {
                        field_name,
                        field,
                        next_arg: n,
                        pending: None,
                        phase: Phase::Done,
                        input_objects,
                        return_shape: None,
                    },
                }
            },
        }
    }

    /// Begins the analysis of a field.
    pub fn start(field_name: String, field: FieldNode) -> (r: Self)
        ensures
            r@ == begin(field_name@, field@),
            well_formed(r@),
    {
        proof {
            lemma_begin_well_formed(field_name@, field@);
        }
        Inspection::seek(field_name, field, 0, InputObjects::new())
    }

    /// The name of the type whose description is needed next; `None` once
    /// the analysis is complete.
    pub fn pending(&self) -> (r: Option<String>)
        ensures
            opt_text(r) == self@.pending,
            r is None <==> self@.phase == Phase::Done,
    {
        proof {
            use_type_invariant(self);
        }
        match &self.pending {
            Some(name) => Some(name.clone()),
            None => None,
        }
    }

    /// Whether nothing is pending any more.
    pub fn is_done(&self) -> (r: bool)
        ensures
            r == (self@.phase == Phase::Done),
            r == (self@.pending is None),
    {
        proof {
            use_type_invariant(self);
        }
        self.pending.is_none()
    }

    /// Takes the answer to the pending request and moves on. An answer
    /// supplied when nothing is pending changes nothing.
    pub fn supply(self, lookup: TypeLookup) -> (r: Self)
        ensures
            r@ == step(self@, lookup@),
            well_formed(r@),
    {
        proof {
            use_type_invariant(&self);
            lemma_step_progress(self@, lookup@);
        }
        let Inspection { field_name, field, next_arg, pending, phase, input_objects, return_shape } =
            self;
        match phase {
            Phase::Inputs => {
                let name = match pending {
                    Some(n) => n,
                    None => String::new(),
                };
                let collected = match lookup {
                    TypeLookup::Failed => input_objects,
                    TypeLookup::Unknown => input_objects.insert(name, None),
                    TypeLookup::Found(node) => input_objects.insert(name, Some(node)),
                };
                let count = field.args.len();
                assert(next_arg < count);
                Inspection::seek(field_name, field, next_arg + 1, collected)
            },
            Phase::Return => {
                let name = match pending {
                    Some(n) => n,
                    None => String::new(),
                };
                match lookup {
                    TypeLookup::Failed => Inspection {
                        field_name,
                        field,
                        next_arg,
                        pending: None,
                        phase: Phase::Done,
                        input_objects,
                        return_shape,
                    },
                    TypeLookup::Unknown => Inspection {
                        field_name,
                        field,
                        next_arg,
                        pending: None,
                        phase: Phase::Done,
                        input_objects,
                        return_shape: Some(unknown_return_shape(name)),
                    },
                    TypeLookup::Found(node) => {
                        let (shape, edges) = classify_return_type(name, node);
                        match edges {
                            Some(e) => Inspection {
                                field_name,
                                field,
                                next_arg,
                                pending: Some(e),
                                phase: Phase::Edges,
                                input_objects,
                                return_shape: Some(shape),
                            },
                            None => Inspection {
                                field_name,
                                field,
                                next_arg,
                                pending: None,
                                phase: Phase::Done,
                                input_objects,
                                return_shape: Some(shape),
                            },
                        }
                    },
                }
            },
            Phase::Edges => {
                match (lookup, return_shape) {
                    (TypeLookup::Found(edge), Some(shape)) => {
                        let element_type = first_resolved_type(&edge.fields, "node", "node");
                        let ReturnShape {
                            named_return_type,
                            type_details,
                            has_total_count,
                            has_results,
                            has_nodes,
                            has_edges,
                            has_page_info,
                            element_type: _,
                        } = shape;
                        Inspection {
                            field_name,
                            field,
                            next_arg,
                            pending: None,
                            phase: Phase::Done,
                            input_objects,
                            return_shape: Some(
                                ReturnShape {
                                    named_return_type,
                                    type_details,
                                    has_total_count,
                                    has_results,
                                    has_nodes,
                                    has_edges,
                                    has_page_info,
                                    element_type,
                                },
                            ),
                        }
                    },
                    (_, kept) => Inspection {
                        field_name,
                        field,
                        next_arg,
                        pending: None,
                        phase: Phase::Done,
                        input_objects,
                        return_shape: kept,
                    },
                }
            },
            Phase::Done => Inspection {
                field_name,
                field,
                next_arg,
                pending,
                phase,
                input_objects,
                return_shape,
            },
        }
    }

    /// The result of the analysis, with what has been found so far.
    pub fn finish(self) -> (r: FieldShape)
        ensures
            r@ == shape_of(self@),
    {
        let Inspection { field_name, field, next_arg: _, pending: _, phase: _, input_objects, return_shape } =
            self;
        let args = annotate_args(&field.args);
        let FieldNode { name, description, args: _, type_ref } = field;
        let shown = match name {
            Some(n) => n,
            None => field_name,
        };
        FieldShape { field: shown, args, type_ref, description, input_objects, return_shape }
    }
}

/// An explorer of one endpoint that answers with structured data.
#[derive(Debug)]
pub struct Explorer {
    pub endpoint: String,
}

impl Clone for Explorer {
    fn clone(&self) -> (r: Self)
        ensures
            r.endpoint == self.endpoint,
    {
        Explorer { endpoint: self.endpoint.clone() }
    }
}

/// The view of what the start of an analysis gave.
pub open spec fn started_view(r: Result<Inspection, NotFound>) -> Result<
    InspectionView,
    NotFoundView,
> {
    match r {
        Ok(inspection) => Ok(inspection@),
        Err(e) => Err(e@),
    }
}

impl Explorer {
    /// An explorer of the endpoint at this address.
    pub fn new(endpoint: String) -> (r: Self)
        ensures
            r.endpoint == endpoint,
    {
        Explorer { endpoint }
    }

    /// The fields of the query root as the answer to the query for the
    /// type `Query` lists them; `None` where it lists none.
    pub fn get_query_fields(&self, response: &serde_json::Value) -> (r: Option<Vec<FieldNode>>)
        ensures
            match items_at(*response, "/data/__type/fields"@) {
                Some(items) => r matches Some(fields) && is_fields_of(fields_view(fields@), items),
                None => r is None,
            },
    {
        root_fields(response)
    }

    /// Begins the analysis of the field of the query root that is called
    /// exactly `field_name`. `root_fields` are the fields of the query root,
    /// `None` where they could not be listed. Where no field has that name,
    /// the error names the fields there are.
    pub fn inspect_field(&self, root_fields: Option<&Vec<FieldNode>>, field_name: &str) -> (r:
        Result<Inspection, NotFound>)
        ensures
            started_view(r) == match located(
                opt_fields_view(root_fields),
                field_name@,
                NameMatch::Exact,
            ) {
                Some(field) => Ok::<InspectionView, NotFoundView>(begin(field_name@, field)),
                None => Err::<InspectionView, NotFoundView>(
                    not_found(opt_fields_view(root_fields), field_name@, "<could not list>"@),
                ),
            },
    {
        match locate_field(root_fields, field_name, NameMatch::Exact, "<could not list>") {
            Ok(field) => Ok(Inspection::start(String::from_str(field_name), field)),
            Err(e) => Err(e),
        }
    }

    /// Makes the answer for the response to a query that was passed
    /// through to the endpoint.
    pub fn execute_query(&self, response: &serde_json::Value) -> (r: ToolOutcome)
        ensures
            r@ == response_outcome(
                json_member(*response, "errors"@) is Some,
                printed(*response),
                debug_json(*response),
            ),
    {
        answer_query(response)
    }
}

/// How many requests an analysis can still make, at most.
pub open spec fn requests_left(s: InspectionView) -> int {
    match s.phase {
        Phase::Inputs => s.field.args.len() - s.next_arg + 2,
        Phase::Return => 2,
        Phase::Edges => 1,
        Phase::Done => 0,
    }
}

/// An analysis begins well formed, and needs no more requests than the
/// field has arguments, and two.
pub proof fn lemma_begin_well_formed(field_name: Seq<char>, field: FieldView)
    ensures
        well_formed(begin(field_name, field)),
        requests_left(begin(field_name, field)) <= field.args.len() + 2,
{
    lemma_next_named_arg(field.args, 0);
}

/// Every answer leaves an analysis well formed, and an analysis that is
/// waiting comes nearer its end with every answer, whatever the answer is.
pub proof fn lemma_step_progress(s: InspectionView, lookup: TypeLookupView)
    requires
        well_formed(s),
    ensures
        well_formed(step(s, lookup)),
        s.phase != Phase::Done ==> requests_left(step(s, lookup)) < requests_left(s),
        s.phase == Phase::Done ==> step(s, lookup) == s,
{
    if s.phase == Phase::Inputs {
        lemma_next_named_arg(s.field.args, s.next_arg + 1);
    }
}

/// A request that fails costs none of what has been found: a failed answer
/// changes no input object, and no answer whatever removes an input object
/// or changes one under another name than the pending one. The analysis
/// goes on to the next request all the same.
pub proof fn lemma_failure_is_tolerated(s: InspectionView, lookup: TypeLookupView)
    requires
        well_formed(s),
    ensures
        step(s, TypeLookupView::Failed).input_objects == s.input_objects,
        forall|name: Seq<char>| #[trigger]
            s.input_objects.dom().contains(name) ==> step(s, lookup).input_objects.dom().contains(
                name,
            ),
        forall|name: Seq<char>|
            s.input_objects.dom().contains(name) && s.pending != Some(name) ==> #[trigger] step(
                s,
                lookup,
            ).input_objects[name] == s.input_objects[name],
        step(s, lookup).field == s.field,
        step(s, lookup).field_name == s.field_name,
{
}

/// The input objects that an analysis holds are exactly those that were
/// supplied for an argument: an answer at the arguments that describes the
/// type is filed under the pending name.
pub proof fn lemma_found_is_filed(s: InspectionView, node: TypeView)
    requires
        well_formed(s),
        s.phase == Phase::Inputs,
    ensures
        s.pending matches Some(name) && step(s, TypeLookupView::Found(node)).input_objects
            == s.input_objects.insert(name, Some(node)),
{
}

/// The state after a series of answers, each supplied in its turn.
pub open spec fn run(s: InspectionView, lookups: Seq<TypeLookupView>) -> InspectionView
    decreases lookups.len(),
{
    if lookups.len() == 0 {
        s
    } else {
        run(step(s, lookups[0]), lookups.skip(1))
    }
}

/// Whatever the answers are, as many answers as there are requests left
/// bring the analysis to its end: the caller's loop stops.
pub proof fn lemma_run_completes(s: InspectionView, lookups: Seq<TypeLookupView>)
    requires
        well_formed(s),
        lookups.len() >= requests_left(s),
    ensures
        well_formed(run(s, lookups)),
        run(s, lookups).phase == Phase::Done,
    decreases lookups.len(),
{
    if lookups.len() > 0 {
        lemma_step_progress(s, lookups[0]);
        lemma_run_completes(step(s, lookups[0]), lookups.skip(1));
    }
}

} // verus!
