//! Directives: the configuration written on a declaration or a field, and
//! how each written form is read.
use vstd::prelude::*;

use crate::error::GenError;
use crate::text::str_eq;

verus! {

/// An expression written in a directive, as far as the resolver reads it.
#[derive(Clone, Debug, PartialEq, Eq)]
pub enum Expr {
    /// A string literal, with its value.
    Str(String),
    /// A boolean literal.
    Bool(bool),
    /// A path, as written (`parse_hex`, `std::convert::From::from`).
    Path(String),
    /// Any other expression, as written.
    Other(String),
}

/// The value of an expression.
pub enum ExprV {
    Str(Seq<char>),
    Bool(bool),
    Path(Seq<char>),
    Other(Seq<char>),
}

impl View for Expr {
    type V = ExprV;

    open spec fn view(&self) -> ExprV {
        match self {
            Expr::Str(s) => ExprV::Str(s@),
            Expr::Bool(b) => ExprV::Bool(*b),
            Expr::Path(s) => ExprV::Path(s@),
            Expr::Other(s) => ExprV::Other(s@),
        }
    }
}

impl Expr {
    /// A copy of this expression.
    pub fn cloned(&self) -> (r: Expr)
        ensures
            r == *self,
    {
        match self {
            Expr::Str(s) => Expr::Str(s.clone()),
            Expr::Bool(b) => Expr::Bool(*b),
            Expr::Path(s) => Expr::Path(s.clone()),
            Expr::Other(s) => Expr::Other(s.clone()),
        }
    }
}

/// One argument inside the parentheses of `name(...)`.
#[derive(Clone, Debug, PartialEq, Eq)]
pub enum CallArg {
    /// A plain expression.
    Value(Expr),
    /// `key = value`, with the whole argument as written.
    Assign { key: String, value: Expr, text: String },
}

/// A directive as written, before it is read.
#[derive(Clone, Debug, PartialEq, Eq)]
pub enum AttrInput {
    /// A sole identifier: `long`.
    Word(String),
    /// `name = value`.
    Assign(String, Expr),
    /// `name(arg, ...)`.
    Call(String, Vec<CallArg>),
}

/// The argument of `parse(...)`: a parser kind and an optional function.
#[derive(Clone, Debug, PartialEq, Eq)]
pub struct ParserSpec {
    pub kind: String,
    pub parse_func: Option<Expr>,
}

/// A directive, read.
#[derive(Clone, Debug, PartialEq, Eq)]
pub enum StructOptAttr {
    Short,
    Long,
    Env,
    Flatten,
    Subcommand,
    ExternalSubcommand,
    NoVersion,
    VerbatimDocComment,
    About(Option<String>),
    Author(Option<String>),
    DefaultValue(Option<String>),
    Version(String),
    RenameAllEnv(String),
    RenameAll(String),
    /// `name = "literal"` for any other name (`name`, `help`, `short = "f"`...).
    NameLitStr(String, String),
    Parse(ParserSpec),
    Skip(Option<Expr>),
    /// `name = expression` for any other name, with a non-literal value.
    NameExpr(String, Expr),
    /// `name(args...)`.
    MethodCall(String, Vec<Expr>),
}

/// What a sole identifier `n` reads as: `Ok` with the directive, or `None`
/// where the word is refused.
pub open spec fn word_attr(n: Seq<char>) -> Option<StructOptAttr> {
    if n == "long"@ {
        Some(StructOptAttr::Long)
    } else if n == "short"@ {
        Some(StructOptAttr::Short)
    } else if n == "env"@ {
        Some(StructOptAttr::Env)
    } else if n == "flatten"@ {
        Some(StructOptAttr::Flatten)
    } else if n == "subcommand"@ {
        Some(StructOptAttr::Subcommand)
    } else if n == "external_subcommand"@ {
        Some(StructOptAttr::ExternalSubcommand)
    } else if n == "no_version"@ {
        Some(StructOptAttr::NoVersion)
    } else if n == "verbatim_doc_comment"@ {
        Some(StructOptAttr::VerbatimDocComment)
    } else if n == "default_value"@ {
        Some(StructOptAttr::DefaultValue(None))
    } else if n == "about"@ {
        Some(StructOptAttr::About(None))
    } else if n == "author"@ {
        Some(StructOptAttr::Author(None))
    } else if n == "skip"@ {
        Some(StructOptAttr::Skip(None))
    } else {
        None
    }
}

/// The error for a refused sole identifier `n`.
pub open spec fn word_error(n: Seq<char>) -> GenError {
    if n == "version"@ {
        GenError::BareVersion
    } else {
        GenError::UnexpectedAttribute
    }
}

/// Whether `name = "lit"` reads as `r`.
pub open spec fn assign_lit_reads_as(
    name: Seq<char>,
    lit: Seq<char>,
    r: Result<StructOptAttr, GenError>,
) -> bool {
    if name == "rename_all"@ {
        r matches Ok(StructOptAttr::RenameAll(s)) && s@ == lit
    } else if name == "rename_all_env"@ {
        r matches Ok(StructOptAttr::RenameAllEnv(s)) && s@ == lit
    } else if name == "default_value"@ {
        r matches Ok(StructOptAttr::DefaultValue(Some(s))) && s@ == lit
    } else if name == "version"@ || name == "author"@ || name == "about"@ {
        if lit.len() == 0 {
            r == Err::<StructOptAttr, GenError>(
                if name == "version"@ {
                    GenError::EmptyVersion
                } else if name == "author"@ {
                    GenError::EmptyAuthor
                } else {
                    GenError::EmptyAbout
                },
            )
        } else if name == "version"@ {
            r matches Ok(StructOptAttr::Version(s)) && s@ == lit
        } else if name == "author"@ {
            r matches Ok(StructOptAttr::Author(Some(s))) && s@ == lit
        } else {
            r matches Ok(StructOptAttr::About(Some(s))) && s@ == lit
        }
    } else if name == "skip"@ {
        r matches Ok(StructOptAttr::Skip(Some(Expr::Str(s)))) && s@ == lit
    } else {
        r matches Ok(StructOptAttr::NameLitStr(n, s)) && n@ == name && s@ == lit
    }
}

/// The expression that a call argument stands for when it is passed on to a
/// method: an assignment is kept as written.
pub open spec fn call_arg_expr(a: CallArg) -> Expr {
    match a {
        CallArg::Value(e) => e,
        CallArg::Assign { key, value, text } => Expr::Other(text),
    }
}

/// The parser specification that a call argument of `parse(...)` stands for:
/// `kind` or `kind = function`; anything else is no specification.
pub open spec fn call_arg_parser_spec(a: CallArg) -> Option<(Seq<char>, Option<Expr>)> {
    match a {
        CallArg::Value(Expr::Path(p)) => if is_ident(p@) {
            Some((p@, None))
        } else {
            None
        },
        CallArg::Assign { key, value, text } => Some((key@, Some(value))),
        _ => None,
    }
}

/// Whether `s` is a sole identifier (no `::` in it).
pub open spec fn is_ident(s: Seq<char>) -> bool {
    s.len() > 0 && forall|i: int| 0 <= i < s.len() ==> s[i] != ':'
}

/// Whether `name(args)` reads as `r`.
pub open spec fn call_reads_as(
    name: Seq<char>,
    args: Seq<CallArg>,
    r: Result<StructOptAttr, GenError>,
) -> bool {
    if name == "parse"@ {
        if args.len() != 1 {
            r == Err::<StructOptAttr, GenError>(GenError::ParseArgumentCount)
        } else {
            match call_arg_parser_spec(args[0]) {
                Some((k, f)) => r matches Ok(StructOptAttr::Parse(spec)) && spec.kind@ == k
                    && spec.parse_func == f,
                None => r == Err::<StructOptAttr, GenError>(GenError::ParserSpecNotIdent),
            }
        }
    } else if name == "raw"@ {
        if args.len() == 1 && args[0] matches CallArg::Value(Expr::Bool(b)) {
            r matches Ok(StructOptAttr::MethodCall(n, v)) && n@ == name && v@ == seq![
                call_arg_expr(args[0]),
            ]
        } else {
            r == Err::<StructOptAttr, GenError>(GenError::RawRemoved)
        }
    } else {
        r matches Ok(StructOptAttr::MethodCall(n, v)) && n@ == name && v@ == args.map_values(
            |a: CallArg| call_arg_expr(a),
        )
    }
}

/// Whether the written directive `input` reads as `r`.
pub open spec fn reads_as(input: AttrInput, r: Result<StructOptAttr, GenError>) -> bool {
    match input {
        AttrInput::Word(n) => match word_attr(n@) {
            Some(a) => r == Ok::<StructOptAttr, GenError>(a),
            None => r == Err::<StructOptAttr, GenError>(word_error(n@)),
        },
        AttrInput::Assign(name, Expr::Str(lit)) => assign_lit_reads_as(name@, lit@, r),
        AttrInput::Assign(name, e) => if name@ == "skip"@ {
            r == Ok::<StructOptAttr, GenError>(StructOptAttr::Skip(Some(e)))
        } else {
            r matches Ok(StructOptAttr::NameExpr(n, x)) && n@ == name@ && x == e
        },
        AttrInput::Call(name, args) => call_reads_as(name@, args@, r),
    }
}

/// Whether the written directive `input` is read without refusal.
pub open spec fn reads_ok(input: AttrInput) -> bool {
    exists|a: StructOptAttr| #[trigger] reads_as(input, Ok::<StructOptAttr, GenError>(a))
}

fn is_ident_exec(s: &str) -> (r: bool)
    ensures
        r == is_ident(s@),
{
    let n = s.unicode_len();
    if n == 0 {
        return false;
    }
    let mut i: usize = 0;
    while i < n
        invariant
            n == s@.len(),
            i <= n,
            forall|k: int| 0 <= k < i ==> s@[k] != ':',
        decreases n - i,
    {
        if s.get_char(i) == ':' {
            return false;
        }
        i = i + 1;
    }
    true
}

fn word_directive(n: &String) -> (r: Result<StructOptAttr, GenError>)
    ensures
        reads_as(AttrInput::Word(*n), r),
{
    let s = n.as_str();
    if str_eq(s, "long") {
        Ok(StructOptAttr::Long)
    } else if str_eq(s, "short") {
        Ok(StructOptAttr::Short)
    } else if str_eq(s, "env") {
        Ok(StructOptAttr::Env)
    } else if str_eq(s, "flatten") {
        Ok(StructOptAttr::Flatten)
    } else if str_eq(s, "subcommand") {
        Ok(StructOptAttr::Subcommand)
    } else if str_eq(s, "external_subcommand") {
        Ok(StructOptAttr::ExternalSubcommand)
    } else if str_eq(s, "no_version") {
        Ok(StructOptAttr::NoVersion)
    } else if str_eq(s, "verbatim_doc_comment") {
        Ok(StructOptAttr::VerbatimDocComment)
    } else if str_eq(s, "default_value") {
        Ok(StructOptAttr::DefaultValue(None))
    } else if str_eq(s, "about") {
        Ok(StructOptAttr::About(None))
    } else if str_eq(s, "author") {
        Ok(StructOptAttr::Author(None))
    } else if str_eq(s, "skip") {
        Ok(StructOptAttr::Skip(None))
    } else if str_eq(s, "version") {
        Err(GenError::BareVersion)
    } else {
        Err(GenError::UnexpectedAttribute)
    }
}

fn assign_lit_directive(name: &String, lit: &String) -> (r: Result<StructOptAttr, GenError>)
    ensures
        assign_lit_reads_as(name@, lit@, r),
{
    let s = name.as_str();
    let name = name.clone();
    let lit = lit.clone();
    if str_eq(s, "rename_all") {
        Ok(StructOptAttr::RenameAll(lit))
    } else if str_eq(s, "rename_all_env") {
        Ok(StructOptAttr::RenameAllEnv(lit))
    } else if str_eq(s, "default_value") {
        Ok(StructOptAttr::DefaultValue(Some(lit)))
    } else if str_eq(s, "version") || str_eq(s, "author") || str_eq(s, "about") {
        if lit.as_str().unicode_len() == 0 {
            if str_eq(s, "version") {
                Err(GenError::EmptyVersion)
            } else if str_eq(s, "author") {
                Err(GenError::EmptyAuthor)
            } else {
                Err(GenError::EmptyAbout)
            }
        } else if str_eq(s, "version") {
            Ok(StructOptAttr::Version(lit))
        } else if str_eq(s, "author") {
            Ok(StructOptAttr::Author(Some(lit)))
        } else {
            Ok(StructOptAttr::About(Some(lit)))
        }
    } else if str_eq(s, "skip") {
        Ok(StructOptAttr::Skip(Some(Expr::Str(lit))))
    } else {
        Ok(StructOptAttr::NameLitStr(name, lit))
    }
}

fn call_directive(name: &String, args: &Vec<CallArg>) -> (r: Result<StructOptAttr, GenError>)
    ensures
        call_reads_as(name@, args@, r),
{
    let s = name.as_str();
    let name = name.clone();
    if str_eq(s, "parse") {
        if args.len() != 1 {
            return Err(GenError::ParseArgumentCount);
        }
        match &args[0] {
            CallArg::Value(Expr::Path(p)) => {
                if is_ident_exec(p.as_str()) {
                    Ok(StructOptAttr::Parse(ParserSpec { kind: p.clone(), parse_func: None }))
                } else {
                    Err(GenError::ParserSpecNotIdent)
                }
            },
            CallArg::Assign { key, value, text: _ } => {
                Ok(StructOptAttr::Parse(ParserSpec { kind: key.clone(), parse_func: Some(value.cloned()) }))
            },
            _ => Err(GenError::ParserSpecNotIdent),
        }
    } else if str_eq(s, "raw") {
        if args.len() == 1 {
            match &args[0] {
                CallArg::Value(Expr::Bool(b)) => {
                    let v = vec![Expr::Bool(*b)];
                    assert(v@ =~= seq![call_arg_expr(args@[0])]);
                    Ok(StructOptAttr::MethodCall(name, v))
                },
                _ => Err(GenError::RawRemoved),
            }
        } else {
            Err(GenError::RawRemoved)
        }
    } else {
        let mut v: Vec<Expr> = Vec::new();
        let mut i: usize = 0;
        while i < args.len()
            invariant
                i <= args@.len(),
                v@ =~= args@.subrange(0, i as int).map_values(|a: CallArg| call_arg_expr(a)),
            decreases args@.len() - i,
        {
            let e = match &args[i] {
                CallArg::Value(e) => e.cloned(),
                CallArg::Assign { key: _, value: _, text } => Expr::Other(text.clone()),
            };
            v.push(e);
            assert(args@.subrange(0, i + 1) == args@.subrange(0, i as int).push(args@[i as int]));
            i = i + 1;
        }
        assert(args@.subrange(0, args@.len() as int) == args@);
        assert(v@ =~= args@.map_values(|a: CallArg| call_arg_expr(a)));
        Ok(StructOptAttr::MethodCall(name, v))
    }
}

impl StructOptAttr {
    /// Reads one written directive.
    pub fn parse(input: &AttrInput) -> (r: Result<StructOptAttr, GenError>)
        ensures
            reads_as(*input, r),
    {
        match input {
            AttrInput::Word(n) => word_directive(n),
            AttrInput::Assign(name, Expr::Str(lit)) => assign_lit_directive(name, lit),
            AttrInput::Assign(name, e) => {
                if str_eq(name.as_str(), "skip") {
                    Ok(StructOptAttr::Skip(Some(e.cloned())))
                } else {
                    Ok(StructOptAttr::NameExpr(name.clone(), e.cloned()))
                }
            },
            AttrInput::Call(name, args) => call_directive(name, args),
        }
    }
}

/// Reads every written directive in order; the first refusal stops the
/// reading.
pub fn parse_structopt_attributes(inputs: &Vec<AttrInput>) -> (r: Result<
    Vec<StructOptAttr>,
    GenError,
>)
    ensures
        match r {
            Ok(v) => v@.len() == inputs@.len() && forall|i: int|
                0 <= i < inputs@.len() ==> reads_as(
                    #[trigger] inputs@[i],
                    Ok::<StructOptAttr, GenError>(v@[i]),
                ),
            Err(e) => exists|i: int|
                0 <= i < inputs@.len() && reads_as(inputs@[i], Err::<StructOptAttr, GenError>(e))
                    && forall|j: int| 0 <= j < i ==> reads_ok(#[trigger] inputs@[j]),
        },
{
    let mut out: Vec<StructOptAttr> = Vec::new();
    let mut i: usize = 0;
    let n = inputs.len();
    while i < n
        invariant
            n == inputs@.len(),
            i <= n,
            out@.len() == i,
            forall|k: int|
                0 <= k < i ==> reads_as(
                    #[trigger] inputs@[k],
                    Ok::<StructOptAttr, GenError>(out@[k]),
                ),
        decreases n - i,
    {
        match StructOptAttr::parse(&inputs[i]) {
            Ok(a) => out.push(a),
            Err(e) => {
                assert forall|j: int| 0 <= j < i implies reads_ok(#[trigger] inputs@[j]) by {
                    assert(reads_as(inputs@[j], Ok::<StructOptAttr, GenError>(out@[j])));
                }
                assert(reads_as(inputs@[i as int], Err::<StructOptAttr, GenError>(e)));
                return Err(e);
            },
        }
        i = i + 1;
    }
    Ok(out)
}

} // verus!
