//! The introspected description of a schema: type references, arguments,
//! fields and whole types, each with the mathematical view that the
//! contracts of this crate speak of.
//!
//! A text that the server left out is held as the empty text where the
//! renderers treat both alike, and as `None` where they do not.

use vstd::prelude::*;
use crate::text::{clone_opt_string, opt_text};

verus! {

/// A reference to a type: a chain of wrappers (`NON_NULL`, `LIST`) that ends
/// in a named type. `name` is empty on a wrapper.
#[derive(Debug)]
pub struct TypeRef {
    pub kind: String,
    pub name: String,
    pub of_type: Option<Box<TypeRef>>,
}

pub struct TypeRefView {
    pub kind: Seq<char>,
    pub name: Seq<char>,
    pub of_type: Option<Box<TypeRefView>>,
}

impl TypeRef {
    /// The view, defined by descent along the chain.
    pub open spec fn model(self) -> TypeRefView
        decreases self,
    {
        TypeRefView {
            kind: self.kind@,
            name: self.name@,
            of_type: match self.of_type {
                Some(inner) => Some(Box::new(inner.model())),
                None => None,
            },
        }
    }
}

impl View for TypeRef {
    type V = TypeRefView;

    open spec fn view(&self) -> TypeRefView {
        self.model()
    }
}

impl Clone for TypeRef {
    fn clone(&self) -> (r: Self)
        ensures
            r@ == self@,
        decreases self,
    {
        let of_type = match &self.of_type {
            Some(inner) => Some(Box::new((**inner).clone())),
            None => None,
        };
        TypeRef { kind: self.kind.clone(), name: self.name.clone(), of_type }
    }
}

/// An argument of a field, or a field of an input object.
#[derive(Debug)]
pub struct ArgNode {
    pub name: String,
    pub description: Option<String>,
    pub type_ref: TypeRef,
}

pub type InputFieldNode = ArgNode;

pub struct ArgView {
    pub name: Seq<char>,
    pub description: Option<Seq<char>>,
    pub type_ref: TypeRefView,
}

impl View for ArgNode {
    type V = ArgView;

    open spec fn view(&self) -> ArgView {
        ArgView {
            name: self.name@,
            description: opt_text(self.description),
            type_ref: self.type_ref@,
        }
    }
}

impl Clone for ArgNode {
    fn clone(&self) -> (r: Self)
        ensures
            r@ == self@,
    {
        ArgNode {
            name: self.name.clone(),
            description: clone_opt_string(&self.description),
            type_ref: self.type_ref.clone(),
        }
    }
}

/// The views of a list of arguments, in order.
pub open spec fn args_view(args: Seq<ArgNode>) -> Seq<ArgView> {
    Seq::new(args.len(), |i: int| args[i]@)
}

/// A fresh copy of a list of arguments.
pub fn clone_args(args: &Vec<ArgNode>) -> (r: Vec<ArgNode>)
    ensures
        args_view(r@) == args_view(args@),
{
    let mut out: Vec<ArgNode> = Vec::new();
    let mut i: usize = 0;
    while i < args.len()
        invariant
            i <= args.len(),
            out.len() == i,
            forall|j: int| 0 <= j < i ==> out[j]@ == args[j]@,
        decreases args.len() - i,
    {
        out.push(args[i].clone());
        i += 1;
    }
    out
}

/// One field of an object or interface type, or of the query root.
#[derive(Debug)]
pub struct FieldNode {
    pub name: Option<String>,
    pub description: Option<String>,
    pub args: Vec<ArgNode>,
    pub type_ref: TypeRef,
}

pub struct FieldView {
    pub name: Option<Seq<char>>,
    pub description: Option<Seq<char>>,
    pub args: Seq<ArgView>,
    pub type_ref: TypeRefView,
}

impl View for FieldNode {
    type V = FieldView;

    open spec fn view(&self) -> FieldView {
        FieldView {
            name: opt_text(self.name),
            description: opt_text(self.description),
            args: args_view(self.args@),
            type_ref: self.type_ref@,
        }
    }
}

impl Clone for FieldNode {
    fn clone(&self) -> (r: Self)
        ensures
            r@ == self@,
    {
        FieldNode {
            name: clone_opt_string(&self.name),
            description: clone_opt_string(&self.description),
            args: clone_args(&self.args),
            type_ref: self.type_ref.clone(),
        }
    }
}

/// The views of a list of fields, in order.
pub open spec fn fields_view(fields: Seq<FieldNode>) -> Seq<FieldView> {
    Seq::new(fields.len(), |i: int| fields[i]@)
}

/// One value of an enum type.
#[derive(Debug)]
pub struct EnumValueNode {
    pub name: Option<String>,
    pub description: Option<String>,
}

pub struct EnumValueView {
    pub name: Option<Seq<char>>,
    pub description: Option<Seq<char>>,
}

impl View for EnumValueNode {
    type V = EnumValueView;

    open spec fn view(&self) -> EnumValueView {
        EnumValueView { name: opt_text(self.name), description: opt_text(self.description) }
    }
}

/// The views of a list of enum values, in order.
pub open spec fn enum_values_view(values: Seq<EnumValueNode>) -> Seq<EnumValueView> {
    Seq::new(values.len(), |i: int| values[i]@)
}

/// The views of a list of texts, in order.
pub open spec fn texts_view(texts: Seq<String>) -> Seq<Seq<char>> {
    Seq::new(texts.len(), |i: int| texts[i]@)
}

/// The full description of one named type. Each list is `None` where the
/// server gave none for a type of this kind.
#[derive(Debug)]
pub struct TypeNode {
    pub kind: String,
    pub name: String,
    pub description: Option<String>,
    pub fields: Option<Vec<FieldNode>>,
    pub input_fields: Option<Vec<ArgNode>>,
    pub enum_values: Option<Vec<EnumValueNode>>,
    pub possible_types: Option<Vec<String>>,
}

pub struct TypeView {
    pub kind: Seq<char>,
    pub name: Seq<char>,
    pub description: Option<Seq<char>>,
    pub fields: Option<Seq<FieldView>>,
    pub input_fields: Option<Seq<ArgView>>,
    pub enum_values: Option<Seq<EnumValueView>>,
    pub possible_types: Option<Seq<Seq<char>>>,
}

impl View for TypeNode {
    type V = TypeView;

    open spec fn view(&self) -> TypeView {
        TypeView {
            kind: self.kind@,
            name: self.name@,
            description: opt_text(self.description),
            fields: match self.fields {
                Some(v) => Some(fields_view(v@)),
                None => None,
            },
            input_fields: match self.input_fields {
                Some(v) => Some(args_view(v@)),
                None => None,
            },
            enum_values: match self.enum_values {
                Some(v) => Some(enum_values_view(v@)),
                None => None,
            },
            possible_types: match self.possible_types {
                Some(v) => Some(texts_view(v@)),
                None => None,
            },
        }
    }
}

} // verus!
