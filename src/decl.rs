//! The declarations that parsers are generated from.
use vstd::prelude::*;

use crate::directive::StructOptAttr;
use crate::ty::FieldType;

verus! {

/// A named field with its type, documentation lines and directives.
#[derive(Debug)]
pub struct Field {
    /// The field's name; `None` for a field of a tuple struct.
    pub ident: Option<String>,
    pub ty: FieldType,
    /// The values of its documentation attributes, in order.
    pub doc: Vec<String>,
    /// Its directives, read.
    pub attrs: Vec<StructOptAttr>,
}

/// The fields of a variant.
#[derive(Debug)]
pub enum VariantFields {
    /// `Variant { a: A, b: B }`.
    Named(Vec<Field>),
    /// `Variant`.
    Unit,
    /// `Variant(A, ...)`: the types of the unnamed fields.
    Unnamed(Vec<FieldType>),
}

/// A variant of a tagged union.
#[derive(Debug)]
pub struct Variant {
    pub ident: String,
    pub doc: Vec<String>,
    pub attrs: Vec<StructOptAttr>,
    pub fields: VariantFields,
}

/// The body of a declaration.
#[derive(Debug)]
pub enum Data {
    /// A record with named fields.
    Struct(Vec<Field>),
    /// A tagged union.
    Enum(Vec<Variant>),
    /// Anything else (a tuple struct, a union).
    Other,
}

/// A declaration with its documentation lines and directives.
#[derive(Debug)]
pub struct Declaration {
    pub ident: String,
    pub doc: Vec<String>,
    pub attrs: Vec<StructOptAttr>,
    pub data: Data,
}

} // verus!
