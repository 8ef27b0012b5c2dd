//! The explorer that answers in schema definition language: the fields of
//! the query root as signatures, and one field with the types of its
//! arguments and its return type written out.

use vstd::prelude::*;
use crate::graphql_client::{
    args_sdl, args_to_sdl, render_type_ref, type_ref_to_sdl, type_to_sdl, unwrap_named_type,
};
use crate::graphql_fullschema::type_block;
use crate::json::{debug_json, json_member};
use crate::lookup::{
    find_named_arg, lemma_next_named_arg, locate_field, located, next_named_arg, not_found,
    opt_fields_view, NameMatch, NotFound, NotFoundView,
};
use crate::outcome::{answer_query, printed, response_outcome, ToolOutcome};
use crate::schema::{fields_view, FieldNode, FieldView};
use crate::shape::{resolved_name, TypeLookup, TypeLookupView};
use crate::text::opt_text;

verus! {

/// The signature of a field under a given name: the name, the arguments in
/// parentheses, which stand even where there are none, a colon and the
/// type.
pub open spec fn signature_sdl(name: Seq<char>, f: FieldView) -> Seq<char> {
    name + "("@ + args_sdl(f.args) + ")"@ + ": "@ + render_type_ref(f.type_ref)
}

/// Renders the signature of a field under a given name.
pub fn signature_to_sdl(name: &str, f: &FieldNode) -> (r: String)
    ensures
        r@ == signature_sdl(name@, f@),
{
    let mut s = String::from_str(name);
    s.append("(");
    let joined = args_to_sdl(&f.args);
    s.append(joined.as_str());
    s.append(")");
    s.append(": ");
    let rendered = type_ref_to_sdl(&f.type_ref);
    s.append(rendered.as_str());
    s
}

/// The name under which a field is listed: its own, or a placeholder where
/// it has none.
pub open spec fn listed_name(f: FieldView) -> Seq<char> {
    match f.name {
        Some(name) => name,
        None => "<unnamed>"@,
    }
}

/// The list of the fields of the query root: the signature of each on a
/// line of its own.
pub open spec fn query_fields_sdl(fields: Seq<FieldView>) -> Seq<char>
    decreases fields.len(),
{
    if fields.len() == 0 {
        Seq::empty()
    } else {
        query_fields_sdl(fields.drop_last()) + signature_sdl(
            listed_name(fields.last()),
            fields.last(),
        ) + "\n"@
    }
}

/// Lists the fields of the query root, the signature of each on a line of
/// its own.
pub fn list_query_fields(fields: &Vec<FieldNode>) -> (r: String)
    ensures
        r@ == query_fields_sdl(fields_view(fields@)),
{
    let ghost views = fields_view(fields@);
    let mut out = String::new();
    let mut i: usize = 0;
    while i < fields.len()
        invariant
            i <= fields.len(),
            views == fields_view(fields@),
            out@ == query_fields_sdl(views.take(i as int)),
        decreases fields.len() - i,
    {
        proof {
            let next = views.take(i + 1);
            assert(next.drop_last() =~= views.take(i as int));
        }
        let field = &fields[i];
        let line = match &field.name {
            Some(name) => signature_to_sdl(name.as_str(), field),
            None => signature_to_sdl("<unnamed>", field),
        };
        out.append(line.as_str());
        out.append("\n");
        i += 1;
    }
    assert(views.take(fields.len() as int) =~= views);
    out
}

/// What the rendering of a field is waiting for.
#[derive(Clone, Copy, Debug, PartialEq, Eq, Structural)]
pub enum Stage {
    /// The description of the type of an argument.
    Inputs,
    /// The description of the return type.
    Return,
    /// Nothing: the rendering is complete.
    Done,
}

/// The rendering of one field of the query root, under way. It names the
/// type whose description it needs next; the caller fetches that
/// description and supplies what came of it, until nothing is pending.
#[derive(Debug)]
pub struct Rendering {
    field_name: String,
    field: FieldNode,
    next_arg: usize,
    pending: Option<String>,
    stage: Stage,
    input_sdl: String,
    return_sdl: String,
}

pub struct RenderingView {
    /// The name that was asked for.
    pub field_name: Seq<char>,
    /// The field that was found under it.
    pub field: FieldView,
    /// The position of the argument whose type is pending, while the
    /// rendering is at the arguments; their number afterwards.
    pub next_arg: int,
    /// The name of the type whose description is needed next.
    pub pending: Option<Seq<char>>,
    pub stage: Stage,
    /// The types of the arguments, as far as they are rendered.
    pub input_sdl: Seq<char>,
    /// The return type, once it is rendered.
    pub return_sdl: Seq<char>,
}

/// The state once the arguments are through: the return type is pending
/// where the field's type resolves, and the rendering is complete where it
/// does not.
pub open spec fn after_inputs(s: RenderingView) -> RenderingView {
    match resolved_name(s.field.type_ref) {
        Some(name) => RenderingView {
            next_arg: s.field.args.len() as int,
            stage: Stage::Return,
            pending: Some(name),
            ..s
        },
        None => RenderingView {
            next_arg: s.field.args.len() as int,
            stage: Stage::Done,
            pending: None,
            ..s
        },
    }
}

/// The state that waits for the first argument at or after `from` whose
/// type resolves; past the last such argument, the state after the
/// arguments.
pub open spec fn seek_input(s: RenderingView, from: int) -> RenderingView {
    let i = next_named_arg(s.field.args, from);
    if i < s.field.args.len() {
        RenderingView {
            next_arg: i,
            stage: Stage::Inputs,
            pending: resolved_name(s.field.args[i].type_ref),
            ..s
        }
    } else {
        after_inputs(s)
    }
}

/// The state in which the rendering of a field begins.
pub open spec fn begin(field_name: Seq<char>, field: FieldView) -> RenderingView {
    seek_input(
        RenderingView {
            field_name,
            field,
            next_arg: 0,
            pending: None,
            stage: Stage::Done,
            input_sdl: Seq::empty(),
            return_sdl: Seq::empty(),
        },
        0,
    )
}

/// What an answer adds to the text: the rendering of the type that was
/// described, with an empty line after it; nothing where the request
/// failed, the type is unknown, or it has no rendering.
pub open spec fn lookup_block(lookup: TypeLookupView) -> Seq<char> {
    match lookup {
        TypeLookupView::Found(node) => type_block(node),
        _ => Seq::empty(),
    }
}

/// The state after the answer to the pending request.
pub open spec fn step(s: RenderingView, lookup: TypeLookupView) -> RenderingView {
    match s.stage {
        Stage::Inputs => seek_input(
            RenderingView { input_sdl: s.input_sdl + lookup_block(lookup), ..s },
            s.next_arg + 1,
        ),
        Stage::Return => RenderingView {
            stage: Stage::Done,
            pending: None,
            return_sdl: s.return_sdl + lookup_block(lookup),
            ..s
        },
        Stage::Done => s,
    }
}

/// The text that the caller gets: the signature of the field under the
/// name that was asked for, the types of its arguments, and its return
/// type, each part under a heading.
pub open spec fn report(s: RenderingView) -> Seq<char> {
    "# Field: "@ + signature_sdl(s.field_name, s.field) + "\n# Input objects\n"@ + s.input_sdl
        + "\n# Return type\n"@ + s.return_sdl
}

/// What every state of a rendering satisfies: a request is pending exactly
/// until the rendering is complete, and it is the request that the stage
/// calls for.
pub open spec fn well_formed(s: RenderingView) -> bool {
    &&& 0 <= s.next_arg <= s.field.args.len()
    &&& match s.stage {
        Stage::Inputs => {
            &&& s.next_arg < s.field.args.len()
            &&& s.pending is Some
            &&& s.pending == resolved_name(s.field.args[s.next_arg].type_ref)
        },
        Stage::Return => {
            &&& s.next_arg == s.field.args.len()
            &&& s.pending is Some
            &&& s.pending == resolved_name(s.field.type_ref)
        },
        Stage::Done => s.pending is None && s.next_arg == s.field.args.len(),
    }
}

impl View for Rendering {
    type V = RenderingView;

    closed spec fn view(&self) -> RenderingView {
        RenderingView {
            field_name: self.field_name@,
            field: self.field@,
            next_arg: self.next_arg as int,
            pending: opt_text(self.pending),
            stage: self.stage,
            input_sdl: self.input_sdl@,
            return_sdl: self.return_sdl@,
        }
    }
}

/// Appends to `text` what an answer adds to it.
fn push_lookup_block(text: &mut String, lookup: &TypeLookup)
    ensures
        final(text)@ == old(text)@ + lookup_block(lookup@),
{
    match lookup {
        TypeLookup::Found(node) => match type_to_sdl(node) {
            Some(sdl) => {
                text.append(sdl.as_str());
                text.append("\n");
            },
            None => {},
        },
        _ => {},
    }
}

impl Rendering {
    #[verifier::type_invariant]
    spec fn inv(self) -> bool {
        well_formed(self@)
    }

    /// Turns to the first argument at or after `from` whose type resolves,
    /// or to the return type where there is none.
    fn seek(
        field_name: String,
        field: FieldNode,
        from: usize,
        input_sdl: String,
        return_sdl: String,
    ) -> (r: Self)
        requires
            from <= field.args.len(),
        ensures
            r@ == seek_input(
                RenderingView {
                    field_name: field_name@,
                    field: field@,
                    next_arg: from as int,
                    pending: None,
                    stage: Stage::Done,
                    input_sdl: input_sdl@,
                    return_sdl: return_sdl@,
                },
                from as int,
            ),
    {
        let (i, name) = find_named_arg(&field.args, from);
        match name {
            Some(n) => Rendering {
                field_name,
                field,
                next_arg: i,
                pending: Some(n),
                stage: Stage::Inputs,
                input_sdl,
                return_sdl,
            },
            None => {
                let n = field.args.len();
                match unwrap_named_type(&field.type_ref) {
                    Some((name, _)) => Rendering {
                        field_name,
                        field,
                        next_arg: n,
                        pending: Some(name),
                        stage: Stage::Return,
                        input_sdl,
                        return_sdl,
                    },
                    None => Rendering {
                        field_name,
                        field,
                        next_arg: n,
                        pending: None,
                        stage: Stage::Done,
                        input_sdl,
                        return_sdl,
                    },
                }
            },
        }
    }

    /// Begins the rendering of a field.
    pub fn start(field_name: String, field: FieldNode) -> (r: Self)
        ensures
            r@ == begin(field_name@, field@),
            well_formed(r@),
    {
        proof {
            lemma_begin_well_formed(field_name@, field@);
        }
        Rendering::seek(field_name, field, 0, String::new(), String::new())
    }

    /// The name of the type whose description is needed next; `None` once
    /// the rendering is complete.
    pub fn pending(&self) -> (r: Option<String>)
        ensures
            opt_text(r) == self@.pending,
            r is None <==> self@.stage == Stage::Done,
    {
        proof {
            use_type_invariant(self);
        }
        match &self.pending {
            Some(name) => Some(name.clone()),
            None => None,
        }
    }

    /// Whether nothing is pending any more.
    pub fn is_done(&self) -> (r: bool)
        ensures
            r == (self@.stage == Stage::Done),
            r == (self@.pending is None),
    {
        proof {
            use_type_invariant(self);
        }
        self.pending.is_none()
    }

    /// Takes the answer to the pending request and moves on. An answer
    /// supplied when nothing is pending changes nothing.
    pub fn supply(self, lookup: TypeLookup) -> (r: Self)
        ensures
            r@ == step(self@, lookup@),
            well_formed(r@),
    {
        proof {
            use_type_invariant(&self);
            lemma_step_progress(self@, lookup@);
        }
        let Rendering { field_name, field, next_arg, pending, stage, input_sdl, return_sdl } = self;
        match stage {
            Stage::Inputs => {
                let mut input_sdl = input_sdl;
                push_lookup_block(&mut input_sdl, &lookup);
                let count = field.args.len();
                assert(next_arg < count);
                Rendering::seek(field_name, field, next_arg + 1, input_sdl, return_sdl)
            },
            Stage::Return => {
                let mut return_sdl = return_sdl;
                push_lookup_block(&mut return_sdl, &lookup);
                Rendering {
                    field_name,
                    field,
                    next_arg,
                    pending: None,
                    stage: Stage::Done,
                    input_sdl,
                    return_sdl,
                }
            },
            Stage::Done => Rendering {
                field_name,
                field,
                next_arg,
                pending,
                stage,
                input_sdl,
                return_sdl,
            },
        }
    }

    /// The text of the rendering, with what has been rendered so far.
    pub fn finish(self) -> (r: String)
        ensures
            r@ == report(self@),
    {
        let mut out = String::from_str("# Field: ");
        let signature = signature_to_sdl(self.field_name.as_str(), &self.field);
        out.append(signature.as_str());
        out.append("\n# Input objects\n");
        out.append(self.input_sdl.as_str());
        out.append("\n# Return type\n");
        out.append(self.return_sdl.as_str());
        out
    }
}

/// An explorer of one endpoint that answers in schema definition
/// language.
#[derive(Debug)]
pub struct Explorer {
    pub endpoint: String,
}

impl Clone for Explorer {
    fn clone(&self) -> (r: Self)
        ensures
            r.endpoint == self.endpoint,
    {
        Explorer { endpoint: self.endpoint.clone() }
    }
}

/// The view of what the start of a rendering gave.
pub open spec fn started_view(r: Result<Rendering, NotFound>) -> Result<RenderingView, NotFoundView> {
    match r {
        Ok(rendering) => Ok(rendering@),
        Err(e) => Err(e@),
    }
}

impl Explorer {
    /// An explorer of the endpoint at this address.
    pub fn new(endpoint: String) -> (r: Self)
        ensures
            r.endpoint == endpoint,
    {
        Explorer { endpoint }
    }

    /// The fields of the query root as signatures, one on each line; the
    /// empty text where the fields could not be listed.
    pub fn get_query_fields(&self, root_fields: Option<&Vec<FieldNode>>) -> (r: String)
        ensures
            r@ == match root_fields {
                Some(fields) => query_fields_sdl(fields_view(fields@)),
                None => Seq::<char>::empty(),
            },
    {
        match root_fields {
            Some(fields) => list_query_fields(fields),
            None => String::new(),
        }
    }

    /// Begins the rendering of the field of the query root that is called
    /// `field_name`, whatever the case of its ASCII letters. `root_fields`
    /// are the fields of the query root, `None` where they could not be
    /// listed. Where no field has that name, the error names the fields
    /// there are.
    pub fn inspect_field(&self, root_fields: Option<&Vec<FieldNode>>, field_name: &str) -> (r:
        Result<Rendering, NotFound>)
        ensures
            started_view(r) == match located(
                opt_fields_view(root_fields),
                field_name@,
                NameMatch::IgnoreAsciiCase,
            ) {
                Some(field) => Ok::<RenderingView, NotFoundView>(begin(field_name@, field)),
                None => Err::<RenderingView, NotFoundView>(
                    not_found(opt_fields_view(root_fields), field_name@, "<none>"@),
                ),
            },
    {
        match locate_field(root_fields, field_name, NameMatch::IgnoreAsciiCase, "<none>") {
            Ok(field) => Ok(Rendering::start(String::from_str(field_name), field)),
            Err(e) => Err(e),
        }
    }

    /// Makes the answer for the response to a query that was passed
    /// through to the endpoint.
    pub fn execute_query(&self, response: &serde_json::Value) -> (r: ToolOutcome)
        ensures
            r@ == response_outcome(
                json_member(*response, "errors"@) is Some,
                printed(*response),
                debug_json(*response),
            ),
    {
        answer_query(response)
    }
}

/// How many requests a rendering can still make, at most.
pub open spec fn requests_left(s: RenderingView) -> int {
    match s.stage {
        Stage::Inputs => s.field.args.len() - s.next_arg + 1,
        Stage::Return => 1,
        Stage::Done => 0,
    }
}

/// A rendering begins well formed, and needs no more requests than the
/// field has arguments, and one.
pub proof fn lemma_begin_well_formed(field_name: Seq<char>, field: FieldView)
    ensures
        well_formed(begin(field_name, field)),
        requests_left(begin(field_name, field)) <= field.args.len() + 1,
{
    lemma_next_named_arg(field.args, 0);
}

/// Every answer leaves a rendering well formed; a rendering that is
/// waiting comes nearer its end with every answer, and a failed request
/// loses nothing of the text so far.
pub proof fn lemma_step_progress(s: RenderingView, lookup: TypeLookupView)
    requires
        well_formed(s),
    ensures
        well_formed(step(s, lookup)),
        s.stage != Stage::Done ==> requests_left(step(s, lookup)) < requests_left(s),
        s.stage == Stage::Done ==> step(s, lookup) == s,
        step(s, TypeLookupView::Failed).input_sdl == s.input_sdl,
        step(s, TypeLookupView::Failed).return_sdl == s.return_sdl,
{
    if s.stage == Stage::Inputs {
        lemma_next_named_arg(s.field.args, s.next_arg + 1);
    }
}

/// The state after a series of answers, each supplied in its turn.
pub open spec fn run(s: RenderingView, lookups: Seq<TypeLookupView>) -> RenderingView
    decreases lookups.len(),
{
    if lookups.len() == 0 {
        s
    } else {
        run(step(s, lookups[0]), lookups.skip(1))
    }
}

/// Whatever the answers are, as many answers as there are requests left
/// bring the rendering to its end: the caller's loop stops.
pub proof fn lemma_run_completes(s: RenderingView, lookups: Seq<TypeLookupView>)
    requires
        well_formed(s),
        lookups.len() >= requests_left(s),
    ensures
        well_formed(run(s, lookups)),
        run(s, lookups).stage == Stage::Done,
    decreases lookups.len(),
{
    if lookups.len() > 0 {
        lemma_step_progress(s, lookups[0]);
        lemma_run_completes(step(s, lookups[0]), lookups.skip(1));
    }
}

} // verus!
