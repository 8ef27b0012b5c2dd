//! Finding a field of the query root by its name, and what the caller is
//! told when there is none of that name.

use vstd::prelude::*;
use crate::graphql_client::{resolve_named, unwrap_named_type};
use crate::schema::{args_view, fields_view, ArgNode, ArgView, FieldNode, FieldView};
use crate::text::{ascii_case_match, join, lemma_join_push, str_eq, str_eq_ignore_ascii_case};

verus! {

/// How the name that was asked for is held against the names of the
/// fields. GraphQL names are case-sensitive; the lenient form forgives the
/// case of ASCII letters.
#[derive(Clone, Copy, Debug, PartialEq, Eq, Structural)]
pub enum NameMatch {
    Exact,
    IgnoreAsciiCase,
}

/// Whether a field's name is the one asked for. A field without a name
/// matches nothing.
pub open spec fn field_matches(f: FieldView, wanted: Seq<char>, mode: NameMatch) -> bool {
    match f.name {
        Some(name) => match mode {
            NameMatch::Exact => name == wanted,
            NameMatch::IgnoreAsciiCase => ascii_case_match(name, wanted),
        },
        None => false,
    }
}

/// The position of the first field that matches, if any does.
pub open spec fn first_match(fields: Seq<FieldView>, wanted: Seq<char>, mode: NameMatch) -> Option<
    int,
>
    decreases fields.len(),
{
    if fields.len() == 0 {
        None
    } else {
        match first_match(fields.drop_last(), wanted, mode) {
            Some(i) => Some(i),
            None => if field_matches(fields.last(), wanted, mode) {
                Some(fields.len() - 1)
            } else {
                None
            },
        }
    }
}

/// The first match is a position of the list, the field there matches, and
/// no field before it does; where there is no match, no field matches.
pub proof fn lemma_first_match(fields: Seq<FieldView>, wanted: Seq<char>, mode: NameMatch)
    ensures
        match first_match(fields, wanted, mode) {
            Some(i) => {
                &&& 0 <= i < fields.len()
                &&& field_matches(fields[i], wanted, mode)
                &&& forall|j: int| 0 <= j < i ==> !field_matches(#[trigger] fields[j], wanted, mode)
            },
            None => forall|j: int|
                0 <= j < fields.len() ==> !field_matches(#[trigger] fields[j], wanted, mode),
        },
    decreases fields.len(),
{
    if fields.len() > 0 {
        lemma_first_match(fields.drop_last(), wanted, mode);
        let front = fields.drop_last();
        assert(forall|j: int| 0 <= j < front.len() ==> front[j] == fields[j]);
    }
}

/// Whether a field's name is the one asked for.
pub fn matches_field(f: &FieldNode, wanted: &str, mode: NameMatch) -> (r: bool)
    ensures
        r == field_matches(f@, wanted@, mode),
{
    match &f.name {
        Some(name) => match mode {
            NameMatch::Exact => str_eq(name.as_str(), wanted),
            NameMatch::IgnoreAsciiCase => str_eq_ignore_ascii_case(name.as_str(), wanted),
        },
        None => false,
    }
}

/// The view of a position that was found.
pub open spec fn position_view(r: Option<usize>) -> Option<int> {
    match r {
        Some(i) => Some(i as int),
        None => None,
    }
}

/// Finds the first field of the list whose name is the one asked for.
pub fn find_field(fields: &Vec<FieldNode>, wanted: &str, mode: NameMatch) -> (r: Option<usize>)
    ensures
        position_view(r) == first_match(fields_view(fields@), wanted@, mode),
        r matches Some(i) ==> i < fields.len(),
{
    let ghost views = fields_view(fields@);
    let mut i: usize = 0;
    while i < fields.len()
        invariant
            i <= fields.len(),
            views == fields_view(fields@),
            first_match(views.take(i as int), wanted@, mode) is None,
        decreases fields.len() - i,
    {
        proof {
            let next = views.take(i + 1);
            assert(next.drop_last() =~= views.take(i as int));
        }
        if matches_field(&fields[i], wanted, mode) {
            proof {
                lemma_first_match_prefix(views, i + 1, wanted@, mode);
            }
            return Some(i);
        }
        i += 1;
    }
    assert(views.take(fields.len() as int) =~= views);
    None
}

/// A match within a prefix of the list is the match of the whole list.
pub proof fn lemma_first_match_prefix(
    fields: Seq<FieldView>,
    n: int,
    wanted: Seq<char>,
    mode: NameMatch,
)
    requires
        0 <= n <= fields.len(),
        first_match(fields.take(n), wanted, mode) is Some,
    ensures
        first_match(fields, wanted, mode) == first_match(fields.take(n), wanted, mode),
    decreases fields.len() - n,
{
    if n < fields.len() {
        let longer = fields.take(n + 1);
        assert(longer.drop_last() =~= fields.take(n));
        lemma_first_match_prefix(fields, n + 1, wanted, mode);
    } else {
        assert(fields.take(n) =~= fields);
    }
}

/// The names of the fields that have one, in order.
pub open spec fn field_names(fields: Seq<FieldView>) -> Seq<Seq<char>>
    decreases fields.len(),
{
    if fields.len() == 0 {
        Seq::empty()
    } else {
        match fields.last().name {
            Some(name) => field_names(fields.drop_last()).push(name),
            None => field_names(fields.drop_last()),
        }
    }
}

/// The names of the fields, separated by a comma and a space.
pub open spec fn available_names(fields: Seq<FieldView>) -> Seq<char> {
    join(field_names(fields), ", "@)
}

/// Lists the names of the fields, separated by a comma and a space.
pub fn available_fields(fields: &Vec<FieldNode>) -> (r: String)
    ensures
        r@ == available_names(fields_view(fields@)),
{
    let ghost views = fields_view(fields@);
    let mut s = String::new();
    let mut first = true;
    let mut i: usize = 0;
    while i < fields.len()
        invariant
            i <= fields.len(),
            views == fields_view(fields@),
            s@ == join(field_names(views.take(i as int)), ", "@),
            first == (field_names(views.take(i as int)).len() == 0),
        decreases fields.len() - i,
    {
        proof {
            let next = views.take(i + 1);
            assert(next.drop_last() =~= views.take(i as int));
        }
        match &fields[i].name {
            Some(name) => {
                proof {
                    lemma_join_push(field_names(views.take(i as int)), ", "@, name@);
                }
                if !first {
                    s.append(", ");
                }
                s.append(name.as_str());
                first = false;
            },
            None => {},
        }
        i += 1;
    }
    assert(views.take(fields.len() as int) =~= views);
    s
}

/// That a field was asked for which the query root does not have.
#[derive(Debug)]
pub struct NotFound {
    /// The name that was asked for.
    pub field_name: String,
    /// The names that could have been asked for, separated by a comma and
    /// a space; a placeholder where the fields could not be listed.
    pub available: String,
}

pub struct NotFoundView {
    pub field_name: Seq<char>,
    pub available: Seq<char>,
}

impl View for NotFound {
    type V = NotFoundView;

    open spec fn view(&self) -> NotFoundView {
        NotFoundView { field_name: self.field_name@, available: self.available@ }
    }
}

/// The message for a field that was not found.
pub open spec fn not_found_message(e: NotFoundView) -> Seq<char> {
    "Field '"@ + e.field_name + "' not found on Query. Available fields: "@ + e.available
}

impl NotFound {
    /// The message that the caller is shown.
    pub fn message(&self) -> (r: String)
        ensures
            r@ == not_found_message(self@),
    {
        let mut s = String::from_str("Field '");
        s.append(self.field_name.as_str());
        s.append("' not found on Query. Available fields: ");
        s.append(self.available.as_str());
        s
    }
}

/// What is reported for a name that no field has: the names of the fields
/// there are, or `placeholder` where the root's fields are not known.
pub open spec fn not_found(
    fields: Option<Seq<FieldView>>,
    wanted: Seq<char>,
    placeholder: Seq<char>,
) -> NotFoundView {
    NotFoundView {
        field_name: wanted,
        available: match fields {
            Some(f) => available_names(f),
            None => placeholder,
        },
    }
}

/// The views of an optional list of fields.
pub open spec fn opt_fields_view(fields: Option<&Vec<FieldNode>>) -> Option<Seq<FieldView>> {
    match fields {
        Some(f) => Some(fields_view(f@)),
        None => None,
    }
}

/// The field that a lookup finds, where it finds one.
pub open spec fn located(fields: Option<Seq<FieldView>>, wanted: Seq<char>, mode: NameMatch) -> Option<
    FieldView,
> {
    match fields {
        Some(f) => match first_match(f, wanted, mode) {
            Some(i) => Some(f[i]),
            None => None,
        },
        None => None,
    }
}

/// The view of what a lookup gave.
pub open spec fn located_view(r: Result<FieldNode, NotFound>) -> Result<FieldView, NotFoundView> {
    match r {
        Ok(f) => Ok(f@),
        Err(e) => Err(e@),
    }
}

/// Looks a field up among the fields of the query root. Gives a copy of
/// the first field that matches, and otherwise the report that names the
/// fields there are.
pub fn locate_field(
    fields: Option<&Vec<FieldNode>>,
    wanted: &str,
    mode: NameMatch,
    placeholder: &str,
) -> (r: Result<FieldNode, NotFound>)
    ensures
        located_view(r) == match located(opt_fields_view(fields), wanted@, mode) {
            Some(f) => Ok::<FieldView, NotFoundView>(f),
            None => Err::<FieldView, NotFoundView>(
                not_found(opt_fields_view(fields), wanted@, placeholder@),
            ),
        },
{
    match fields {
        Some(list) => {
            match find_field(list, wanted, mode) {
                Some(i) => Ok(list[i].clone()),
                None => Err(
                    NotFound {
                        field_name: String::from_str(wanted),
                        available: available_fields(list),
                    },
                ),
            }
        },
        None => Err(
            NotFound { field_name: String::from_str(wanted), available: String::from_str(placeholder) },
        ),
    }
}

/// The position of the first argument at or after `from` whose type
/// resolves to a named type; the length of the list where there is none.
pub open spec fn next_named_arg(args: Seq<ArgView>, from: int) -> int
    decreases args.len() - from,
{
    if from < 0 || from >= args.len() {
        args.len() as int
    } else if resolve_named(args[from].type_ref) is Some {
        from
    } else {
        next_named_arg(args, from + 1)
    }
}

/// The next named argument lies between `from` and the end of the list.
pub proof fn lemma_next_named_arg(args: Seq<ArgView>, from: int)
    requires
        0 <= from <= args.len(),
    ensures
        from <= next_named_arg(args, from) <= args.len(),
        next_named_arg(args, from) < args.len() ==> resolve_named(
            args[next_named_arg(args, from)].type_ref,
        ) is Some,
    decreases args.len() - from,
{
    if from < args.len() && !(resolve_named(args[from].type_ref) is Some) {
        lemma_next_named_arg(args, from + 1);
    }
}

/// Finds the first argument at or after `from` whose type resolves to a
/// named type, and gives its position with that type's name.
pub fn find_named_arg(args: &Vec<ArgNode>, from: usize) -> (r: (usize, Option<String>))
    ensures
        r.0 == next_named_arg(args_view(args@), from as int),
        r.0 <= args.len(),
        from <= args.len() ==> from <= r.0,
        match r.1 {
            Some(name) => {
                &&& r.0 < args.len()
                &&& resolve_named(args[r.0 as int]@.type_ref) matches Some((n, _))
                &&& n == name@
            },
            None => r.0 == args.len(),
        },
{
    let ghost views = args_view(args@);
    if from >= args.len() {
        return (args.len(), None);
    }
    let mut i: usize = from;
    while i < args.len()
        invariant
            from <= i <= args.len(),
            views == args_view(args@),
            next_named_arg(views, from as int) == next_named_arg(views, i as int),
        decreases args.len() - i,
    {
        match unwrap_named_type(&args[i].type_ref) {
            Some((name, _)) => {
                return (i, Some(name));
            },
            None => {},
        }
        i += 1;
    }
    (i, None)
}

} // verus!
