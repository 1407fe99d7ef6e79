//! How a field's string input becomes its typed value.
use vstd::prelude::*;

use crate::directive::{Expr, ExprV, ParserSpec};
use crate::error::GenError;
use crate::text::str_eq;

verus! {

/// The kind of conversion from matched input to a field value.
#[derive(Clone, Copy, Debug, PartialEq, Eq, Structural)]
pub enum ParserKind {
    /// An infallible conversion from `&str`.
    FromStr,
    /// A fallible conversion from `&str`.
    TryFromStr,
    /// An infallible conversion from `&OsStr`.
    FromOsStr,
    /// A fallible conversion from `&OsStr`.
    TryFromOsStr,
    /// A conversion from the number of occurrences of a flag.
    FromOccurrences,
}

/// A conversion: its kind and the function that performs it.
#[derive(Clone, Debug, PartialEq, Eq)]
pub struct Parser {
    pub kind: ParserKind,
    pub func: Expr,
}

/// The kind that a `parse(...)` keyword names.
pub open spec fn parser_kind_named(n: Seq<char>) -> Option<ParserKind> {
    if n == "from_str"@ {
        Some(ParserKind::FromStr)
    } else if n == "try_from_str"@ {
        Some(ParserKind::TryFromStr)
    } else if n == "from_os_str"@ {
        Some(ParserKind::FromOsStr)
    } else if n == "try_from_os_str"@ {
        Some(ParserKind::TryFromOsStr)
    } else if n == "from_occurrences"@ {
        Some(ParserKind::FromOccurrences)
    } else {
        None
    }
}

/// The standard fallible string parse.
pub open spec fn from_str_path() -> Seq<char> {
    "::std::str::FromStr::from_str"@
}

/// The generic conversion.
pub open spec fn from_path() -> Seq<char> {
    "::std::convert::From::from"@
}

/// The numeric cast that turns a count of occurrences into the field's type.
pub open spec fn occurrences_cast() -> Seq<char> {
    "{ |v| v as _ }"@
}

/// The value of a conversion.
pub struct ParserV {
    pub kind: ParserKind,
    pub func: ExprV,
}

impl View for Parser {
    type V = ParserV;

    open spec fn view(&self) -> ParserV {
        ParserV { kind: self.kind, func: self.func@ }
    }
}

/// The function that `kind` uses when none is given; none for
/// `TryFromOsStr`, which must be given one.
pub open spec fn default_func(kind: ParserKind) -> Option<ExprV> {
    match kind {
        ParserKind::FromStr | ParserKind::FromOsStr => Some(ExprV::Path(from_path())),
        ParserKind::TryFromStr => Some(ExprV::Path(from_str_path())),
        ParserKind::FromOccurrences => Some(ExprV::Other(occurrences_cast())),
        ParserKind::TryFromOsStr => None,
    }
}

/// The conversion that `parse(spec)` asks for.
pub open spec fn resolve_parser(spec: ParserSpec) -> Result<ParserV, GenError> {
    match parser_kind_named(spec.kind@) {
        None => Err(GenError::UnsupportedParser),
        Some(kind) => match spec.parse_func {
            None => match default_func(kind) {
                Some(f) => Ok(ParserV { kind, func: f }),
                None => Err(GenError::MissingParserFunction),
            },
            Some(Expr::Path(f)) => Ok(ParserV { kind, func: ExprV::Path(f@) }),
            Some(_) => Err(GenError::ParserFunctionNotPath),
        },
    }
}

/// The view of a resolved conversion.
pub open spec fn parser_result_view(r: Result<Parser, GenError>) -> Result<ParserV, GenError> {
    match r {
        Ok(p) => Ok(p@),
        Err(e) => Err(e),
    }
}

impl Parser {
    /// The conversion used when no `parse` directive is given: the standard
    /// fallible string parse.
    pub fn default_parser() -> (r: Parser)
        ensures
            r@ == (ParserV {
                kind: ParserKind::TryFromStr,
                func: ExprV::Path(from_str_path()),
            }),
    {
        Parser {
            kind: ParserKind::TryFromStr,
            func: Expr::Path(String::from_str("::std::str::FromStr::from_str")),
        }
    }

    /// The conversion that a `parse(kind [= function])` directive asks for.
    pub fn from_spec(spec: &ParserSpec) -> (r: Result<Parser, GenError>)
        ensures
            parser_result_view(r) == resolve_parser(*spec),
    {
        let k = spec.kind.as_str();
        let kind = if str_eq(k, "from_str") {
            ParserKind::FromStr
        } else if str_eq(k, "try_from_str") {
            ParserKind::TryFromStr
        } else if str_eq(k, "from_os_str") {
            ParserKind::FromOsStr
        } else if str_eq(k, "try_from_os_str") {
            ParserKind::TryFromOsStr
        } else if str_eq(k, "from_occurrences") {
            ParserKind::FromOccurrences
        } else {
            return Err(GenError::UnsupportedParser);
        };
        match &spec.parse_func {
            None => match kind {
                ParserKind::FromStr | ParserKind::FromOsStr => Ok(
                    Parser { kind, func: Expr::Path(String::from_str("::std::convert::From::from")) },
                ),
                ParserKind::TryFromStr => Ok(
                    Parser {
                        kind,
                        func: Expr::Path(String::from_str("::std::str::FromStr::from_str")),
                    },
                ),
                ParserKind::TryFromOsStr => Err(GenError::MissingParserFunction),
                ParserKind::FromOccurrences => Ok(
                    Parser { kind, func: Expr::Other(String::from_str("{ |v| v as _ }")) },
                ),
            },
            Some(Expr::Path(f)) => Ok(Parser { kind, func: Expr::Path(f.clone()) }),
            Some(_) => Err(GenError::ParserFunctionNotPath),
        }
    }
}

} // verus!
