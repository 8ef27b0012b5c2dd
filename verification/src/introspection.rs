//! The texts of the introspection queries, and the escaping that keeps a
//! type's name inside the string literal it is written into.

use vstd::prelude::*;
use crate::text::push_char;

verus! {

broadcast use vstd::string::group_string_axioms;

/// What stands before the type's name in the query for one type.
pub const TYPE_QUERY_HEAD: &'static str = r#"
        query IntrospectType {
            __type(name: ""#;

/// What stands after the type's name in the query for one type. Arguments
/// and field types are asked for three levels deep, input fields likewise.
pub const TYPE_QUERY_TAIL: &'static str = r#"") {
                name
                kind
                description
                fields(includeDeprecated: true) {
                    name
                    description
                    args {
                        name
                        description
                        type {
                            kind
                            name
                            ofType { kind name ofType { kind name } }
                        }
                    }
                    type { kind name ofType { kind name ofType { kind name } } }
                }
                inputFields {
                    name
                    description
                    type { kind name ofType { kind name ofType { kind name } } }
                }
                enumValues { name description }
                possibleTypes { name }
            }
        }
    "#;

/// The query for all types of the schema, with type references four levels
/// deep.
pub const SCHEMA_QUERY: &'static str = r#"
        query IntrospectionQuery {
          __schema {
            types {
              kind
              name
              fields(includeDeprecated: true) {
                name
                args {
                  name
                  type { kind name ofType { kind name ofType { kind name ofType { kind name } } } }
                }
                type { kind name ofType { kind name ofType { kind name ofType { kind name } } } }
              }
              inputFields {
                name
                type { kind name ofType { kind name ofType { kind name ofType { kind name } } } }
              }
              enumValues(includeDeprecated: true) {
                name
              }
            }
          }
        }
        "#;

/// How one character is written inside a string literal of a query: a
/// backslash before a quote or a backslash, `\n` and `\r` for the two line
/// ends, and every other character as it is.
pub open spec fn escape_char(c: char) -> Seq<char> {
    if c == '"' {
        seq!['\\', '"']
    } else if c == '\\' {
        seq!['\\', '\\']
    } else if c == '\n' {
        seq!['\\', 'n']
    } else if c == '\r' {
        seq!['\\', 'r']
    } else {
        seq![c]
    }
}

/// A text with each character escaped.
pub open spec fn escape_text(s: Seq<char>) -> Seq<char>
    decreases s.len(),
{
    if s.len() == 0 {
        Seq::empty()
    } else {
        escape_text(s.drop_last()) + escape_char(s.last())
    }
}

/// Whether a character needs no escaping.
pub open spec fn is_plain_char(c: char) -> bool {
    c != '"' && c != '\\' && c != '\n' && c != '\r'
}

/// Whether a text can stand between two quotes of a query without ending
/// the literal early: read from the left, a backslash is followed by one of
/// `"`, `\`, `n`, `r`, and no quote or line end stands outside such a pair.
pub open spec fn is_string_body(s: Seq<char>) -> bool
    decreases s.len(),
{
    if s.len() == 0 {
        true
    } else if s[0] == '\\' {
        &&& s.len() >= 2
        &&& (s[1] == '"' || s[1] == '\\' || s[1] == 'n' || s[1] == 'r')
        &&& is_string_body(s.skip(2))
    } else {
        &&& is_plain_char(s[0])
        &&& is_string_body(s.skip(1))
    }
}

/// Escapes a text for use inside a string literal of a query.
pub fn escape_name(name: &str) -> (r: String)
    ensures
        r@ == escape_text(name@),
{
    let mut out = String::new();
    for c in it: name.chars()
        invariant
            it.seq() == name@,
            out@ == escape_text(name@.take(it.index())),
    {
        proof {
            let next = name@.take(it.index() + 1);
            assert(next.drop_last() =~= name@.take(it.index()));
        }
        if c == '"' {
            push_char(&mut out, '\\');
            push_char(&mut out, '"');
        } else if c == '\\' {
            push_char(&mut out, '\\');
            push_char(&mut out, '\\');
        } else if c == '\n' {
            push_char(&mut out, '\\');
            push_char(&mut out, 'n');
        } else if c == '\r' {
            push_char(&mut out, '\\');
            push_char(&mut out, 'r');
        } else {
            push_char(&mut out, c);
        }
    }
    assert(name@.take(name@.len() as int) =~= name@);
    out
}

/// A text of plain characters is its own escaping: the name of a type, made
/// of letters, digits and underscores, goes into the query unchanged.
pub proof fn lemma_escape_plain(s: Seq<char>)
    requires
        forall|i: int| 0 <= i < s.len() ==> is_plain_char(#[trigger] s[i]),
    ensures
        escape_text(s) == s,
    decreases s.len(),
{
    if s.len() > 0 {
        lemma_escape_plain(s.drop_last());
    }
}

/// Two texts that can each stand inside a literal can stand there one after
/// the other.
pub proof fn lemma_string_body_concat(a: Seq<char>, b: Seq<char>)
    requires
        is_string_body(a),
        is_string_body(b),
    ensures
        is_string_body(a + b),
    decreases a.len(),
{
    if a.len() == 0 {
    } else if a[0] == '\\' {
        lemma_string_body_concat(a.skip(2), b);
        assert((a + b).skip(2) =~= a.skip(2) + b);
    } else {
        lemma_string_body_concat(a.skip(1), b);
        assert((a + b).skip(1) =~= a.skip(1) + b);
    }
}

/// Whatever the text, its escaping cannot end the string literal that it is
/// written into.
pub proof fn lemma_escape_is_string_body(s: Seq<char>)
    ensures
        is_string_body(escape_text(s)),
    decreases s.len(),
{
    if s.len() > 0 {
        lemma_escape_is_string_body(s.drop_last());
        let e = escape_char(s.last());
        assert(is_string_body(e)) by {
            assert(is_string_body(Seq::<char>::empty()));
            if e.len() == 2 {
                assert(e.skip(2) =~= Seq::<char>::empty());
            } else {
                assert(e.skip(1) =~= Seq::<char>::empty());
            }
        }
        lemma_string_body_concat(escape_text(s.drop_last()), e);
    }
}

} // verus!
