//! Resolution of command-line declarations into argument-parser plans.
//!
//! A declaration (a record of fields, or a tagged union of variants) with its
//! directives is resolved into per-field attributes, which in turn give an
//! augmentation plan (what to register on the argument matcher) and a
//! construction plan (how to read matched values back).
pub mod attrs;
pub mod author;
pub mod casing;
pub mod construct;
pub mod decl;
pub mod derive;
pub mod directive;
pub mod doc;
pub mod error;
pub mod gen;
pub mod parser;
pub mod text;
pub mod ty;
