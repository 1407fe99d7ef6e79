//! Construction plans of a record and how they read matched values back.
use vstd::prelude::*;

use crate::attrs::{has_method_spec, Attrs, AttrsV, Kind, KindV, PackageMeta};
use crate::casing::CasingStyle;
use crate::decl::Field;
use crate::directive::{Expr, ExprV};
use crate::doc::strings_view;
use crate::error::GenError;
use crate::gen::{
    aug_step_spec, fields_spec, resolve_fields, subcommand_target, type_ident, type_ident_of,
    AugStepV,
};
use crate::parser::ParserKind;
use crate::text::str_eq;
use crate::ty::{sub_type, FieldType, Ty};

verus! {

/// Which matched form a conversion reads.
#[derive(Clone, Copy, Debug, PartialEq, Eq, Structural)]
pub enum ValueSource {
    /// The values as `&str`.
    Str,
    /// The values as `&OsStr`.
    OsStr,
    /// The number of occurrences.
    Occurrences,
}

/// How a field's value is read from the matched values of its argument.
#[derive(Clone, Copy, Debug, PartialEq, Eq, Structural)]
pub enum Extract {
    /// `bool`: whether the argument is present.
    Presence,
    /// `Option<T>`: the value, if any.
    Optional,
    /// `Option<Option<T>>`: absent, present without value, or the value.
    OptionalOptional,
    /// `Option<Vec<T>>`: absent, or the values.
    OptionalMany,
    /// `Vec<T>`: the values, none where absent.
    Many,
    /// A count of occurrences.
    Occurrences,
    /// The one value, which the matcher guarantees.
    Required,
}

/// How one field is constructed.
#[derive(Clone, Debug, PartialEq, Eq)]
pub enum FieldPlan {
    /// From the matched values of the argument named `arg`, read as `extract`
    /// says and converted by `func`; `fallible` where the conversion's result
    /// is unwrapped (validation already ran).
    Arg { arg: String, extract: Extract, source: ValueSource, func: Expr, fallible: bool },
    /// From the matched subcommand, dispatched by the named tagged union.
    Subcommand { ty: String, optional: bool },
    /// From the same matches, by the named declaration.
    Flatten { ty: String },
    /// The given expression, or the type's default.
    Skip(Option<Expr>),
}

/// The value of a construction plan.
pub enum FieldPlanV {
    Arg { arg: Seq<char>, extract: Extract, source: ValueSource, func: ExprV, fallible: bool },
    Subcommand { ty: Seq<char>, optional: bool },
    Flatten { ty: Seq<char> },
    Skip(Option<ExprV>),
}

impl View for FieldPlan {
    type V = FieldPlanV;

    open spec fn view(&self) -> FieldPlanV {
        match self {
            FieldPlan::Arg { arg, extract, source, func, fallible } => FieldPlanV::Arg {
                arg: arg@,
                extract: *extract,
                source: *source,
                func: func@,
                fallible: *fallible,
            },
            FieldPlan::Subcommand { ty, optional } => FieldPlanV::Subcommand {
                ty: ty@,
                optional: *optional,
            },
            FieldPlan::Flatten { ty } => FieldPlanV::Flatten { ty: ty@ },
            FieldPlan::Skip(None) => FieldPlanV::Skip(None),
            FieldPlan::Skip(Some(e)) => FieldPlanV::Skip(Some(e@)),
        }
    }
}

/// The matched form that a conversion kind reads.
pub open spec fn source_spec(kind: ParserKind) -> ValueSource {
    match kind {
        ParserKind::FromStr | ParserKind::TryFromStr => ValueSource::Str,
        ParserKind::FromOsStr | ParserKind::TryFromOsStr => ValueSource::OsStr,
        ParserKind::FromOccurrences => ValueSource::Occurrences,
    }
}

/// How an argument of shape `ty` converted by `kind` is read.
pub open spec fn extract_spec(ty: Ty, kind: ParserKind) -> Extract {
    match ty {
        Ty::Bool => Extract::Presence,
        Ty::Option => Extract::Optional,
        Ty::OptionOption => Extract::OptionalOptional,
        Ty::OptionVec => Extract::OptionalMany,
        Ty::Vec => Extract::Many,
        Ty::Other => if kind == ParserKind::FromOccurrences {
            Extract::Occurrences
        } else {
            Extract::Required
        },
    }
}

/// How a field with attributes `a` and type `t` is constructed.
pub open spec fn plan_spec(a: AttrsV, t: FieldType) -> FieldPlanV {
    match a.kind {
        KindV::Subcommand(s) => FieldPlanV::Subcommand {
            ty: subcommand_target(t, s),
            optional: s == Ty::Option,
        },
        KindV::FlattenStruct => FieldPlanV::Flatten { ty: type_ident(t) },
        KindV::Skip(e) => FieldPlanV::Skip(e),
        KindV::Arg(s) => FieldPlanV::Arg {
            arg: a.cased_name,
            extract: extract_spec(s, a.parser.kind),
            source: source_spec(a.parser.kind),
            func: a.parser.func,
            fallible: a.parser.kind == ParserKind::TryFromStr || a.parser.kind
                == ParserKind::TryFromOsStr,
        },
    }
}

/// How a field with attributes `a` and type `t` is constructed.
pub fn field_plan(a: &Attrs, t: &FieldType) -> (r: FieldPlan)
    ensures
        r@ == plan_spec(a@, *t),
{
    match a.kind() {
        Kind::Subcommand(s) => {
            let ty = match (s, sub_type(t)) {
                (Ty::Option, Some(inner)) => type_ident_of(inner),
                _ => type_ident_of(t),
            };
            let optional = match s {
                Ty::Option => true,
                _ => false,
            };
            FieldPlan::Subcommand { ty, optional }
        },
        Kind::FlattenStruct => FieldPlan::Flatten { ty: type_ident_of(t) },
        Kind::Skip(e) => FieldPlan::Skip(e),
        Kind::Arg(s) => {
            let p = a.parser();
            let source = match p.kind {
                ParserKind::FromStr | ParserKind::TryFromStr => ValueSource::Str,
                ParserKind::FromOsStr | ParserKind::TryFromOsStr => ValueSource::OsStr,
                ParserKind::FromOccurrences => ValueSource::Occurrences,
            };
            let extract = match s {
                Ty::Bool => Extract::Presence,
                Ty::Option => Extract::Optional,
                Ty::OptionOption => Extract::OptionalOptional,
                Ty::OptionVec => Extract::OptionalMany,
                Ty::Vec => Extract::Many,
                Ty::Other => {
                    if p.kind == ParserKind::FromOccurrences {
                        Extract::Occurrences
                    } else {
                        Extract::Required
                    }
                },
            };
            let fallible = p.kind == ParserKind::TryFromStr || p.kind == ParserKind::TryFromOsStr;
            FieldPlan::Arg { arg: a.cased_name(), extract, source, func: p.func.cloned(), fallible }
        },
    }
}

/// The construction plan of a record's fields, one per field in order.
pub open spec fn constructor_spec(fs: Seq<Field>, casing: CasingStyle, meta: PackageMeta) -> Result<
    Seq<FieldPlanV>,
    GenError,
> {
    match fields_spec(fs, casing, meta) {
        Ok(v) => Ok(Seq::new(fs.len(), |i: int| plan_spec(v[i], fs[i].ty))),
        Err(e) => Err(e),
    }
}

/// The views of construction plans.
pub open spec fn plans_view(v: Seq<FieldPlan>) -> Seq<FieldPlanV> {
    v.map_values(|p: FieldPlan| p@)
}

/// The view of a result of planning.
pub open spec fn plans_result_view(r: Result<Vec<FieldPlan>, GenError>) -> Result<
    Seq<FieldPlanV>,
    GenError,
> {
    match r {
        Ok(v) => Ok(plans_view(v@)),
        Err(e) => Err(e),
    }
}

/// The construction plan of a record's fields, one per field in order.
pub fn gen_constructor(fs: &Vec<Field>, casing: CasingStyle, meta: &PackageMeta) -> (r: Result<
    Vec<FieldPlan>,
    GenError,
>)
    ensures
        plans_result_view(r) == constructor_spec(fs@, casing, *meta),
        match fields_spec(fs@, casing, *meta) {
            Ok(v) => r is Ok && r->Ok_0@.len() == fs@.len() && forall|i: int|
                0 <= i < fs@.len() ==> #[trigger] r->Ok_0@[i]@ == plan_spec(v[i], fs@[i].ty),
            Err(e) => r == Err::<Vec<FieldPlan>, GenError>(e),
        },
{
    let attrs = match resolve_fields(fs, casing, meta) {
        Ok(a) => a,
        Err(e) => {
            return Err(e);
        },
    };
    let ghost v = fields_spec(fs@, casing, *meta)->Ok_0;
    let mut out: Vec<FieldPlan> = Vec::new();
    let mut i: usize = 0;
    while i < attrs.len()
        invariant
            attrs@.len() == fs@.len() == v.len(),
            forall|k: int| 0 <= k < v.len() ==> #[trigger] attrs@[k]@ == v[k],
            i <= attrs@.len(),
            out@.len() == i,
            forall|k: int| 0 <= k < i ==> #[trigger] out@[k]@ == plan_spec(v[k], fs@[k].ty),
        decreases attrs@.len() - i,
    {
        out.push(field_plan(&attrs[i], &fs[i].ty));
        i = i + 1;
    }
    assert(plans_view(out@) =~= Seq::new(fs@.len(), |i: int| plan_spec(v[i], fs@[i].ty)));
    Ok(out)
}


/// The matched values of one argument.
#[derive(Clone, Debug, PartialEq, Eq)]
pub struct ArgMatch {
    pub name: String,
    pub occurrences: u64,
    pub values: Vec<String>,
}

/// What the argument matcher reports: the arguments present, and the name
/// of the subcommand given, if any.
#[derive(Clone, Debug, PartialEq, Eq)]
pub struct Matches {
    pub args: Vec<ArgMatch>,
    pub subcommand: Option<String>,
}

/// A field's value, before conversion: the matched strings in the shape
/// that the field's type asks for.
#[derive(Clone, Debug, PartialEq, Eq)]
pub enum FieldValue {
    Flag(bool),
    Count(u64),
    One(String),
    Maybe(Option<String>),
    MaybeMaybe(Option<Option<String>>),
    Many(Vec<String>),
    MaybeMany(Option<Vec<String>>),
    /// The name of the subcommand given, for the tagged union to dispatch.
    Subcommand(Option<String>),
    /// Built from the same matches by the embedded declaration.
    Flatten,
    /// The given expression, or the type's default.
    Default(Option<Expr>),
}

/// The value of a field's value.
pub enum FieldValueV {
    Flag(bool),
    Count(u64),
    One(Seq<char>),
    Maybe(Option<Seq<char>>),
    MaybeMaybe(Option<Option<Seq<char>>>),
    Many(Seq<Seq<char>>),
    MaybeMany(Option<Seq<Seq<char>>>),
    Subcommand(Option<Seq<char>>),
    Flatten,
    Default(Option<ExprV>),
}

/// Why matched values cannot be read back: the matcher let through what the
/// registration required.
#[derive(Clone, Copy, Debug, PartialEq, Eq, Structural)]
pub enum ConstructError {
    /// A required argument without a value.
    MissingValue,
    /// No subcommand, for a field that is not optional.
    MissingSubcommand,
}

/// The first matched argument named `name`.
pub open spec fn first_arg(args: Seq<ArgMatch>, name: Seq<char>) -> Option<ArgMatch>
    decreases args.len(),
{
    if args.len() == 0 {
        None
    } else if args[0].name@ == name {
        Some(args[0])
    } else {
        first_arg(args.subrange(1, args.len() as int), name)
    }
}

/// The first value of a matched argument.
pub open spec fn first_value(a: Option<ArgMatch>) -> Option<Seq<char>> {
    match a {
        Some(m) => if m.values@.len() > 0 {
            Some(m.values@[0]@)
        } else {
            None
        },
        None => None,
    }
}

/// The values of a matched argument.
pub open spec fn all_values(m: ArgMatch) -> Seq<Seq<char>> {
    strings_view(m.values@)
}

/// The value that `plan` reads from `m`.
pub open spec fn construct_spec(plan: FieldPlanV, m: Matches) -> Result<FieldValueV, ConstructError> {
    match plan {
        FieldPlanV::Arg { arg, extract, source, func, fallible } => {
            let found = first_arg(m.args@, arg);
            match extract {
                Extract::Presence => Ok(FieldValueV::Flag(found is Some)),
                Extract::Optional => Ok(FieldValueV::Maybe(first_value(found))),
                Extract::OptionalOptional => Ok(
                    FieldValueV::MaybeMaybe(
                        if found is Some {
                            Some(first_value(found))
                        } else {
                            None
                        },
                    ),
                ),
                Extract::OptionalMany => Ok(
                    FieldValueV::MaybeMany(
                        match found {
                            Some(a) => Some(all_values(a)),
                            None => None,
                        },
                    ),
                ),
                Extract::Many => Ok(
                    FieldValueV::Many(
                        match found {
                            Some(a) => all_values(a),
                            None => Seq::empty(),
                        },
                    ),
                ),
                Extract::Occurrences => Ok(
                    FieldValueV::Count(
                        match found {
                            Some(a) => a.occurrences,
                            None => 0,
                        },
                    ),
                ),
                Extract::Required => match first_value(found) {
                    Some(v) => Ok(FieldValueV::One(v)),
                    None => Err(ConstructError::MissingValue),
                },
            }
        },
        FieldPlanV::Subcommand { ty, optional } => match m.subcommand {
            Some(s) => Ok(FieldValueV::Subcommand(Some(s@))),
            None => if optional {
                Ok(FieldValueV::Subcommand(None))
            } else {
                Err(ConstructError::MissingSubcommand)
            },
        },
        FieldPlanV::Flatten { ty } => Ok(FieldValueV::Flatten),
        FieldPlanV::Skip(e) => Ok(FieldValueV::Default(e)),
    }
}

impl View for FieldValue {
    type V = FieldValueV;

    open spec fn view(&self) -> FieldValueV {
        match self {
            FieldValue::Flag(b) => FieldValueV::Flag(*b),
            FieldValue::Count(n) => FieldValueV::Count(*n),
            FieldValue::One(s) => FieldValueV::One(s@),
            FieldValue::Maybe(None) => FieldValueV::Maybe(None),
            FieldValue::Maybe(Some(s)) => FieldValueV::Maybe(Some(s@)),
            FieldValue::MaybeMaybe(None) => FieldValueV::MaybeMaybe(None),
            FieldValue::MaybeMaybe(Some(None)) => FieldValueV::MaybeMaybe(Some(None)),
            FieldValue::MaybeMaybe(Some(Some(s))) => FieldValueV::MaybeMaybe(Some(Some(s@))),
            FieldValue::Many(v) => FieldValueV::Many(strings_view(v@)),
            FieldValue::MaybeMany(None) => FieldValueV::MaybeMany(None),
            FieldValue::MaybeMany(Some(v)) => FieldValueV::MaybeMany(Some(strings_view(v@))),
            FieldValue::Subcommand(None) => FieldValueV::Subcommand(None),
            FieldValue::Subcommand(Some(s)) => FieldValueV::Subcommand(Some(s@)),
            FieldValue::Flatten => FieldValueV::Flatten,
            FieldValue::Default(None) => FieldValueV::Default(None),
            FieldValue::Default(Some(e)) => FieldValueV::Default(Some(e@)),
        }
    }
}

/// The view of a read-back result.
pub open spec fn value_result_view(r: Result<FieldValue, ConstructError>) -> Result<
    FieldValueV,
    ConstructError,
> {
    match r {
        Ok(v) => Ok(v@),
        Err(e) => Err(e),
    }
}

/// A copy of a sequence of strings.
fn clone_strings(v: &Vec<String>) -> (r: Vec<String>)
    ensures
        strings_view(r@) == strings_view(v@),
{
    let mut out: Vec<String> = Vec::new();
    let mut i: usize = 0;
    while i < v.len()
        invariant
            i <= v@.len(),
            out@.len() == i,
            forall|k: int| 0 <= k < i ==> #[trigger] out@[k]@ == v@[k]@,
        decreases v@.len() - i,
    {
        out.push(v[i].clone());
        i = i + 1;
    }
    assert(strings_view(out@) =~= strings_view(v@));
    out
}

/// The first matched argument named `name`.
pub fn find_arg<'a>(m: &'a Matches, name: &str) -> (r: Option<&'a ArgMatch>)
    ensures
        match r {
            Some(a) => first_arg(m.args@, name@) == Some(*a),
            None => first_arg(m.args@, name@) is None,
        },
{
    let mut i: usize = 0;
    let ghost all = m.args@;
    assert(all.subrange(0, all.len() as int) == all);
    while i < m.args.len()
        invariant
            all == m.args@,
            i <= all.len(),
            first_arg(all, name@) == first_arg(all.subrange(i as int, all.len() as int), name@),
        decreases all.len() - i,
    {
        let ghost rest = all.subrange(i as int, all.len() as int);
        assert(rest.subrange(1, rest.len() as int) == all.subrange(i + 1, all.len() as int));
        if str_eq(m.args[i].name.as_str(), name) {
            return Some(&m.args[i]);
        }
        i = i + 1;
    }
    None
}

/// The first value of a matched argument.
fn first_value_of(a: Option<&ArgMatch>) -> (r: Option<String>)
    ensures
        match a {
            Some(x) => opt_str_view(r) == first_value(Some(*x)),
            None => r is None,
        },
{
    match a {
        Some(x) => {
            if x.values.len() > 0 {
                Some(x.values[0].clone())
            } else {
                None
            }
        },
        None => None,
    }
}

/// The view of an optional string.
pub open spec fn opt_str_view(o: Option<String>) -> Option<Seq<char>> {
    match o {
        Some(s) => Some(s@),
        None => None,
    }
}

/// Reads a field's value back from the matches, as its plan says.
pub fn construct_field(plan: &FieldPlan, m: &Matches) -> (r: Result<FieldValue, ConstructError>)
    ensures
        value_result_view(r) == construct_spec(plan@, *m),
{
    match plan {
        FieldPlan::Arg { arg, extract, source: _, func: _, fallible: _ } => {
            let found = find_arg(m, arg.as_str());
            match extract {
                Extract::Presence => Ok(FieldValue::Flag(found.is_some())),
                Extract::Optional => Ok(FieldValue::Maybe(first_value_of(found))),
                Extract::OptionalOptional => {
                    if found.is_some() {
                        Ok(FieldValue::MaybeMaybe(Some(first_value_of(found))))
                    } else {
                        Ok(FieldValue::MaybeMaybe(None))
                    }
                },
                Extract::OptionalMany => match found {
                    Some(a) => Ok(FieldValue::MaybeMany(Some(clone_strings(&a.values)))),
                    None => Ok(FieldValue::MaybeMany(None)),
                },
                Extract::Many => match found {
                    Some(a) => Ok(FieldValue::Many(clone_strings(&a.values))),
                    None => {
                        let v: Vec<String> = Vec::new();
                        assert(strings_view(v@) =~= Seq::<Seq<char>>::empty());
                        Ok(FieldValue::Many(v))
                    },
                },
                Extract::Occurrences => match found {
                    Some(a) => Ok(FieldValue::Count(a.occurrences)),
                    None => Ok(FieldValue::Count(0)),
                },
                Extract::Required => match first_value_of(found) {
                    Some(v) => Ok(FieldValue::One(v)),
                    None => Err(ConstructError::MissingValue),
                },
            }
        },
        FieldPlan::Subcommand { ty: _, optional } => match &m.subcommand {
            Some(s) => Ok(FieldValue::Subcommand(Some(s.clone()))),
            None => {
                if *optional {
                    Ok(FieldValue::Subcommand(None))
                } else {
                    Err(ConstructError::MissingSubcommand)
                }
            },
        },
        FieldPlan::Flatten { ty: _ } => Ok(FieldValue::Flatten),
        FieldPlan::Skip(e) => match e {
            None => Ok(FieldValue::Default(None)),
            Some(x) => Ok(FieldValue::Default(Some(x.cloned()))),
        },
    }
}

/// Reads every field's value back, in order; the first failure stops.
pub fn construct(plans: &Vec<FieldPlan>, m: &Matches) -> (r: Result<Vec<FieldValue>, ConstructError>)
    ensures
        match r {
            Ok(v) => v@.len() == plans@.len() && forall|i: int|
                0 <= i < plans@.len() ==> construct_spec(#[trigger] plans@[i]@, *m) == Ok::<
                    FieldValueV,
                    ConstructError,
                >(v@[i]@),
            Err(e) => exists|i: int|
                0 <= i < plans@.len() && construct_spec(#[trigger] plans@[i]@, *m) == Err::<
                    FieldValueV,
                    ConstructError,
                >(e),
        },
{
    let mut out: Vec<FieldValue> = Vec::new();
    let mut i: usize = 0;
    while i < plans.len()
        invariant
            i <= plans@.len(),
            out@.len() == i,
            forall|k: int|
                0 <= k < i ==> construct_spec(#[trigger] plans@[k]@, *m) == Ok::<
                    FieldValueV,
                    ConstructError,
                >(out@[k]@),
        decreases plans@.len() - i,
    {
        match construct_field(&plans[i], m) {
            Ok(v) => out.push(v),
            Err(e) => {
                assert(construct_spec(plans@[i as int]@, *m) == Err::<FieldValueV, ConstructError>(e));
                return Err(e);
            },
        }
        i = i + 1;
    }
    Ok(out)
}

/// An argument found at position `i`, with no earlier one of its name, is
/// the one that the lookup finds.
proof fn lemma_first_arg_at(args: Seq<ArgMatch>, i: int, name: Seq<char>)
    requires
        0 <= i < args.len(),
        args[i].name@ == name,
        forall|j: int| 0 <= j < i ==> #[trigger] args[j].name@ != name,
    ensures
        first_arg(args, name) == Some(args[i]),
    decreases i,
{
    if i > 0 {
        let rest = args.subrange(1, args.len() as int);
        assert forall|j: int| 0 <= j < i - 1 implies #[trigger] rest[j].name@ != name by {
            assert(rest[j] == args[j + 1]);
        }
        lemma_first_arg_at(rest, i - 1, name);
    }
}

/// Round trip: for a record whose fields are all plain single values
/// without default, matches that give each field's argument (distinct
/// names) exactly one value read back as exactly those values, field by
/// field; and each such argument is registered as a required single value.
pub proof fn lemma_round_trip(
    fs: Seq<Field>,
    casing: CasingStyle,
    meta: PackageMeta,
    vals: Seq<Seq<char>>,
    m: Matches,
)
    requires
        fields_spec(fs, casing, meta) is Ok,
        forall|i: int|
            0 <= i < fs.len() ==> {
                let a = #[trigger] fields_spec(fs, casing, meta)->Ok_0[i];
                &&& a.kind == KindV::Arg(Ty::Other)
                &&& a.parser.kind != ParserKind::FromOccurrences
                &&& !has_method_spec(a, "default_value"@)
            },
        forall|i: int, j: int|
            0 <= i < fs.len() && 0 <= j < fs.len() && i != j ==> fields_spec(
                fs,
                casing,
                meta,
            )->Ok_0[i].cased_name != fields_spec(fs, casing, meta)->Ok_0[j].cased_name,
        vals.len() == fs.len(),
        m.args@.len() == fs.len(),
        forall|i: int|
            0 <= i < fs.len() ==> (#[trigger] m.args@[i]).name@ == fields_spec(
                fs,
                casing,
                meta,
            )->Ok_0[i].cased_name && strings_view(m.args@[i].values@) == seq![vals[i]],
    ensures
        constructor_spec(fs, casing, meta) is Ok,
        forall|i: int|
            0 <= i < fs.len() ==> construct_spec(
                #[trigger] constructor_spec(fs, casing, meta)->Ok_0[i],
                m,
            ) == Ok::<FieldValueV, ConstructError>(FieldValueV::One(vals[i])),
        forall|i: int|
            0 <= i < fs.len() ==> ((#[trigger] aug_step_spec(
                fields_spec(fs, casing, meta)->Ok_0[i],
                fs[i].ty,
            )) matches AugStepV::Arg { name, modifiers, methods } && modifiers.required == Some(
                true,
            ) && modifiers.takes_value && !modifiers.multiple),
{
    let v = fields_spec(fs, casing, meta)->Ok_0;
    assert forall|i: int| 0 <= i < fs.len() implies construct_spec(
        #[trigger] constructor_spec(fs, casing, meta)->Ok_0[i],
        m,
    ) == Ok::<FieldValueV, ConstructError>(FieldValueV::One(vals[i])) by {
        let a = v[i];
        assert(a.kind == KindV::Arg(Ty::Other));
        assert forall|j: int| 0 <= j < i implies #[trigger] m.args@[j].name@ != a.cased_name by {
            assert(m.args@[j].name@ == v[j].cased_name);
        }
        lemma_first_arg_at(m.args@, i, a.cased_name);
        let ai = m.args@[i];
        assert(strings_view(ai.values@) == seq![vals[i]]);
        assert(strings_view(ai.values@).len() == 1);
        assert(ai.values@.len() == 1);
        assert(m.args@[i].values@[0]@ == strings_view(m.args@[i].values@)[0]);
    }
}

/// Subcommand requiredness: a subcommand field registers its subcommands as
/// required exactly when it is not an `Option`; with no subcommand matched,
/// an `Option` field reads back as absent, and any other is refused.
pub proof fn lemma_subcommand_required(a: AttrsV, t: FieldType, m: Matches)
    requires
        a.kind is Subcommand,
        m.subcommand is None,
    ensures
        aug_step_spec(a, t) matches AugStepV::Subcommand { ty, required } && required == (a.kind
            != KindV::Subcommand(Ty::Option)),
        a.kind == KindV::Subcommand(Ty::Option) ==> construct_spec(plan_spec(a, t), m) == Ok::<
            FieldValueV,
            ConstructError,
        >(FieldValueV::Subcommand(None)),
        a.kind != KindV::Subcommand(Ty::Option) ==> construct_spec(plan_spec(a, t), m) == Err::<
            FieldValueV,
            ConstructError,
        >(ConstructError::MissingSubcommand),
{
}

} // verus!
