//! Classification of a field's declared type by its shape.
use vstd::prelude::*;

use crate::text::str_eq;

verus! {

/// A declared type, as far as its shape is read: a path type keeps the name of
/// its last segment and the generic arguments of that segment.
#[derive(Debug)]
pub enum FieldType {
    /// A path such as `std::option::Option<T>`: `ident` is `Option`, `args`
    /// holds what stands between the angle brackets of the last segment.
    Path { ident: String, args: Vec<GenericArg> },
    /// A type that is not a path (a reference, a tuple, a slice...).
    NonPath,
}

/// One generic argument of a path segment.
#[derive(Debug)]
pub enum GenericArg {
    /// A type argument.
    Type(FieldType),
    /// A lifetime, a constant or a binding.
    NonType,
}

/// How many values a field takes, read from its type.
#[derive(Clone, Copy, Debug, PartialEq, Eq, Structural)]
pub enum Ty {
    Bool,
    Vec,
    Option,
    OptionOption,
    OptionVec,
    Other,
}

/// The single type argument of the last segment of `t`, if it has exactly one
/// generic argument and that argument is a type.
pub open spec fn spec_sub_type(t: FieldType) -> Option<FieldType> {
    match t {
        FieldType::Path { ident, args } => if args@.len() == 1 {
            match args@[0] {
                GenericArg::Type(inner) => Some(inner),
                GenericArg::NonType => None,
            }
        } else {
            None
        },
        FieldType::NonPath => None,
    }
}

/// The name of the last segment of a path type.
pub open spec fn path_ident(t: FieldType) -> Option<Seq<char>> {
    match t {
        FieldType::Path { ident, args } => Some(ident@),
        FieldType::NonPath => None,
    }
}

/// The shape of a type, one level deep: `bool`, `Vec`, `Option`, or other.
pub open spec fn outer_shape(t: FieldType) -> Ty {
    match path_ident(t) {
        Some(n) => if n == "bool"@ {
            Ty::Bool
        } else if n == "Vec"@ {
            Ty::Vec
        } else if n == "Option"@ {
            Ty::Option
        } else {
            Ty::Other
        },
        None => Ty::Other,
    }
}

/// The shape of an `Option` whose type argument has shape `inner`:
/// `Option<Option<..>>` and `Option<Vec<..>>` are told apart from a plain
/// `Option<T>`.
pub open spec fn option_of(inner: Ty) -> Ty {
    match inner {
        Ty::Option => Ty::OptionOption,
        Ty::Vec => Ty::OptionVec,
        _ => Ty::Option,
    }
}

/// The shape of a type. The argument of an `Option` is classified by the same
/// rule, so `Option<Option<T>>` is `OptionOption` while
/// `Option<Option<Option<T>>>` (whose argument is `OptionOption`) is `Option`.
pub open spec fn spec_ty_of(t: FieldType) -> Ty
    decreases t,
{
    match t {
        FieldType::Path { ident, args } => if ident@ == "Option"@ {
            if args@.len() == 1 {
                match args@[0] {
                    GenericArg::Type(inner) => option_of(spec_ty_of(inner)),
                    GenericArg::NonType => Ty::Option,
                }
            } else {
                Ty::Option
            }
        } else {
            outer_shape(t)
        },
        FieldType::NonPath => Ty::Other,
    }
}

/// The single type argument of `t`, if there is exactly one.
pub fn sub_type(t: &FieldType) -> (r: Option<&FieldType>)
    ensures
        match r {
            Some(x) => spec_sub_type(*t) == Some(*x),
            None => spec_sub_type(*t) is None,
        },
{
    match t {
        FieldType::Path { ident: _, args } => {
            if args.len() == 1 {
                match &args[0] {
                    GenericArg::Type(inner) => Some(inner),
                    GenericArg::NonType => None,
                }
            } else {
                None
            }
        },
        FieldType::NonPath => None,
    }
}

/// The one-level shape of `t`.
fn outer_shape_of(t: &FieldType) -> (r: Ty)
    ensures
        r == outer_shape(*t),
{
    match t {
        FieldType::Path { ident, args: _ } => {
            if str_eq(ident.as_str(), "bool") {
                Ty::Bool
            } else if str_eq(ident.as_str(), "Vec") {
                Ty::Vec
            } else if str_eq(ident.as_str(), "Option") {
                Ty::Option
            } else {
                Ty::Other
            }
        },
        FieldType::NonPath => Ty::Other,
    }
}

/// The shape of the declared type `t` (the names are matched, not resolved:
/// any type whose last segment is named `Option` counts as an option).
pub fn ty_from_field(t: &FieldType) -> (r: Ty)
    ensures
        r == spec_ty_of(*t),
    decreases t,
{
    match t {
        FieldType::Path { ident, args } => {
            if str_eq(ident.as_str(), "Option") {
                if args.len() == 1 {
                    match &args[0] {
                        GenericArg::Type(inner) => match ty_from_field(inner) {
                            Ty::Option => Ty::OptionOption,
                            Ty::Vec => Ty::OptionVec,
                            _ => Ty::Option,
                        },
                        GenericArg::NonType => Ty::Option,
                    }
                } else {
                    Ty::Option
                }
            } else {
                outer_shape_of(t)
            }
        },
        FieldType::NonPath => Ty::Other,
    }
}

} // verus!
