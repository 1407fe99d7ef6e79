//! Generation of the augmentation steps and construction plans of a record.
use vstd::prelude::*;

use crate::attrs::{
    field_attrs, has_method_spec, methods_view, Attrs, AttrsV, Kind, KindV, Method,
    MethodV, PackageMeta, result_view,
};
use crate::casing::CasingStyle;
use crate::decl::Field;
use crate::doc::strings_view;
use crate::error::GenError;
use crate::parser::ParserKind;
use crate::ty::{path_ident, spec_sub_type, sub_type, FieldType, Ty};

verus! {

/// Whether a validator is attached, and on which form of the input.
#[derive(Clone, Copy, Debug, PartialEq, Eq, Structural)]
pub enum Validator {
    NoValidator,
    /// The fallible conversion runs on `&str` to validate.
    Str,
    /// The fallible conversion runs on `&OsStr` to validate.
    OsStr,
}

/// The cardinality modifiers of an argument.
#[derive(Clone, Copy, Debug, PartialEq, Eq, Structural)]
pub struct Modifiers {
    pub takes_value: bool,
    pub multiple: bool,
    pub min_values: Option<u64>,
    pub max_values: Option<u64>,
    /// `Some(b)` where requiredness is set explicitly to `b`.
    pub required: Option<bool>,
    pub validator: Validator,
}

/// The validator that a conversion kind asks for: fallible conversions
/// validate their input.
pub open spec fn validator_spec(kind: ParserKind) -> Validator {
    match kind {
        ParserKind::TryFromStr => Validator::Str,
        ParserKind::TryFromOsStr => Validator::OsStr,
        _ => Validator::NoValidator,
    }
}

/// The modifiers of an argument of shape `ty`:
/// - `bool`: a flag, no value, once;
/// - `Option<T>`: one value, once;
/// - `Option<Option<T>>`: once, with zero or one value;
/// - `Option<Vec<T>>`: repeatable, with zero or more values;
/// - `Vec<T>`: repeatable, one value each;
/// - other with an occurrence count: a repeatable flag without value;
/// - other: one value, once, required unless a default value is given.
pub open spec fn modifiers_spec(ty: Ty, kind: ParserKind, has_default: bool) -> Modifiers {
    let v = validator_spec(kind);
    match ty {
        Ty::Bool => Modifiers {
            takes_value: false,
            multiple: false,
            min_values: None,
            max_values: None,
            required: None,
            validator: Validator::NoValidator,
        },
        Ty::Option => Modifiers {
            takes_value: true,
            multiple: false,
            min_values: None,
            max_values: None,
            required: None,
            validator: v,
        },
        Ty::OptionOption => Modifiers {
            takes_value: true,
            multiple: false,
            min_values: Some(0),
            max_values: Some(1),
            required: None,
            validator: v,
        },
        Ty::OptionVec => Modifiers {
            takes_value: true,
            multiple: true,
            min_values: Some(0),
            max_values: None,
            required: None,
            validator: v,
        },
        Ty::Vec => Modifiers {
            takes_value: true,
            multiple: true,
            min_values: None,
            max_values: None,
            required: None,
            validator: v,
        },
        Ty::Other => if kind == ParserKind::FromOccurrences {
            Modifiers {
                takes_value: false,
                multiple: true,
                min_values: None,
                max_values: None,
                required: None,
                validator: Validator::NoValidator,
            }
        } else {
            Modifiers {
                takes_value: true,
                multiple: false,
                min_values: None,
                max_values: None,
                required: Some(!has_default),
                validator: v,
            }
        },
    }
}

/// The modifiers of an argument of shape `ty` converted by `kind`.
pub fn modifiers(ty: Ty, kind: ParserKind, has_default: bool) -> (r: Modifiers)
    ensures
        r == modifiers_spec(ty, kind, has_default),
{
    let v = match kind {
        ParserKind::TryFromStr => Validator::Str,
        ParserKind::TryFromOsStr => Validator::OsStr,
        _ => Validator::NoValidator,
    };
    match ty {
        Ty::Bool => Modifiers {
            takes_value: false,
            multiple: false,
            min_values: None,
            max_values: None,
            required: None,
            validator: Validator::NoValidator,
        },
        Ty::Option => Modifiers {
            takes_value: true,
            multiple: false,
            min_values: None,
            max_values: None,
            required: None,
            validator: v,
        },
        Ty::OptionOption => Modifiers {
            takes_value: true,
            multiple: false,
            min_values: Some(0),
            max_values: Some(1),
            required: None,
            validator: v,
        },
        Ty::OptionVec => Modifiers {
            takes_value: true,
            multiple: true,
            min_values: Some(0),
            max_values: None,
            required: None,
            validator: v,
        },
        Ty::Vec => Modifiers {
            takes_value: true,
            multiple: true,
            min_values: None,
            max_values: None,
            required: None,
            validator: v,
        },
        Ty::Other => {
            if kind == ParserKind::FromOccurrences {
                Modifiers {
                    takes_value: false,
                    multiple: true,
                    min_values: None,
                    max_values: None,
                    required: None,
                    validator: Validator::NoValidator,
                }
            } else {
                Modifiers {
                    takes_value: true,
                    multiple: false,
                    min_values: None,
                    max_values: None,
                    required: Some(!has_default),
                    validator: v,
                }
            }
        },
    }
}

/// An argument to register: its external name, modifiers and calls.
#[derive(Clone, Debug, PartialEq, Eq)]
pub struct ArgSpec {
    pub name: String,
    pub modifiers: Modifiers,
    pub methods: Vec<Method>,
}

/// What one field registers.
#[derive(Clone, Debug, PartialEq, Eq)]
pub enum AugStep {
    /// An argument.
    Arg(ArgSpec),
    /// The arguments of the named declaration, embedded.
    Flatten(String),
    /// The subcommands of the named tagged union; `required` where the
    /// field is not optional.
    Subcommand { ty: String, required: bool },
    /// Nothing.
    Skip,
}

/// The value of a registration step.
pub enum AugStepV {
    Arg { name: Seq<char>, modifiers: Modifiers, methods: Seq<MethodV> },
    Flatten(Seq<char>),
    Subcommand { ty: Seq<char>, required: bool },
    Skip,
}

impl View for AugStep {
    type V = AugStepV;

    open spec fn view(&self) -> AugStepV {
        match self {
            AugStep::Arg(a) => AugStepV::Arg {
                name: a.name@,
                modifiers: a.modifiers,
                methods: methods_view(a.methods@),
            },
            AugStep::Flatten(t) => AugStepV::Flatten(t@),
            AugStep::Subcommand { ty, required } => AugStepV::Subcommand {
                ty: ty@,
                required: *required,
            },
            AugStep::Skip => AugStepV::Skip,
        }
    }
}

/// The name of a type: its last path segment, empty for other types.
pub open spec fn type_ident(t: FieldType) -> Seq<char> {
    match path_ident(t) {
        Some(n) => n,
        None => Seq::empty(),
    }
}

/// The tagged union that a subcommand field of shape `shape` and type `t`
/// holds: `T` for `Option<T>`, the type itself otherwise.
pub open spec fn subcommand_target(t: FieldType, shape: Ty) -> Seq<char> {
    if shape == Ty::Option && spec_sub_type(t) is Some {
        type_ident(spec_sub_type(t)->Some_0)
    } else {
        type_ident(t)
    }
}

/// What a field with attributes `a` and type `t` registers.
pub open spec fn aug_step_spec(a: AttrsV, t: FieldType) -> AugStepV {
    match a.kind {
        KindV::Subcommand(s) => AugStepV::Subcommand {
            ty: subcommand_target(t, s),
            required: s != Ty::Option,
        },
        KindV::Skip(_) => AugStepV::Skip,
        KindV::FlattenStruct => AugStepV::Flatten(type_ident(t)),
        KindV::Arg(s) => AugStepV::Arg {
            name: a.cased_name,
            modifiers: modifiers_spec(s, a.parser.kind, has_method_spec(a, "default_value"@)),
            methods: a.methods,
        },
    }
}

/// The attributes that a field resolves to under `casing`.
pub open spec fn field_spec(f: Field, casing: CasingStyle, meta: PackageMeta) -> Result<
    AttrsV,
    GenError,
> {
    match f.ident {
        Some(id) => field_attrs(id@, f.ty, strings_view(f.doc@), f.attrs@, casing, meta),
        None => Err(GenError::UnnamedField),
    }
}

/// The attributes of all fields, in order; the first refusal stops.
pub open spec fn fields_spec(fs: Seq<Field>, casing: CasingStyle, meta: PackageMeta) -> Result<
    Seq<AttrsV>,
    GenError,
>
    decreases fs.len(),
{
    if fs.len() == 0 {
        Ok(Seq::empty())
    } else {
        match fields_spec(fs.drop_last(), casing, meta) {
            Ok(v) => match field_spec(fs.last(), casing, meta) {
                Ok(a) => Ok(v.push(a)),
                Err(e) => Err(e),
            },
            Err(e) => Err(e),
        }
    }
}

/// How many of the attributes hold subcommands.
pub open spec fn count_subcommands(v: Seq<AttrsV>) -> nat
    decreases v.len(),
{
    if v.len() == 0 {
        0
    } else {
        count_subcommands(v.drop_last()) + if v.last().kind is Subcommand {
            1nat
        } else {
            0nat
        }
    }
}

/// The name of a type.
pub fn type_ident_of(t: &FieldType) -> (r: String)
    ensures
        r@ == type_ident(*t),
{
    match t {
        FieldType::Path { ident, args: _ } => ident.clone(),
        FieldType::NonPath => String::new(),
    }
}

/// Resolves the attributes of one field.
pub fn resolve_field(f: &Field, casing: CasingStyle, meta: &PackageMeta) -> (r: Result<
    Attrs,
    GenError,
>)
    ensures
        result_view(r) == field_spec(*f, casing, *meta),
{
    match &f.ident {
        Some(id) => Attrs::from_field(id.as_str(), &f.ty, &f.doc, &f.attrs, casing, meta),
        None => Err(GenError::UnnamedField),
    }
}

/// Resolves the attributes of all fields, in order.
pub fn resolve_fields(fs: &Vec<Field>, casing: CasingStyle, meta: &PackageMeta) -> (r: Result<
    Vec<Attrs>,
    GenError,
>)
    ensures
        match fields_spec(fs@, casing, *meta) {
            Ok(v) => r is Ok && r->Ok_0@.len() == v.len() && forall|i: int|
                0 <= i < v.len() ==> #[trigger] r->Ok_0@[i]@ == v[i],
            Err(e) => r == Err::<Vec<Attrs>, GenError>(e),
        },
        r is Ok ==> r->Ok_0@.len() == fs@.len(),
{
    let mut out: Vec<Attrs> = Vec::new();
    let mut i: usize = 0;
    while i < fs.len()
        invariant
            i <= fs@.len(),
            fields_spec(fs@.subrange(0, i as int), casing, *meta) is Ok,
            out@.len() == i,
            forall|k: int|
                0 <= k < i ==> #[trigger] out@[k]@ == fields_spec(
                    fs@.subrange(0, i as int),
                    casing,
                    *meta,
                )->Ok_0[k],
            fields_spec(fs@.subrange(0, i as int), casing, *meta)->Ok_0.len() == i,
        decreases fs@.len() - i,
    {
        assert(fs@.subrange(0, i + 1).drop_last() == fs@.subrange(0, i as int));
        match resolve_field(&fs[i], casing, meta) {
            Ok(a) => {
                out.push(a);
            },
            Err(e) => {
                proof {
                    lemma_fields_stop(fs@, i as int, casing, *meta);
                }
                return Err(e);
            },
        }
        i = i + 1;
    }
    assert(fs@.subrange(0, fs@.len() as int) == fs@);
    Ok(out)
}

/// Once a field is refused, all fields are refused with its error.
proof fn lemma_fields_stop(fs: Seq<Field>, i: int, casing: CasingStyle, meta: PackageMeta)
    requires
        0 <= i < fs.len(),
        fields_spec(fs.subrange(0, i), casing, meta) is Ok,
        field_spec(fs[i], casing, meta) is Err,
    ensures
        fields_spec(fs, casing, meta) == Err::<Seq<AttrsV>, GenError>(
            field_spec(fs[i], casing, meta)->Err_0,
        ),
    decreases fs.len() - i,
{
    if i == fs.len() - 1 {
        assert(fs.drop_last() == fs.subrange(0, i));
    } else {
        assert(fs.drop_last().subrange(0, i) == fs.subrange(0, i));
        assert(fs.drop_last()[i] == fs[i]);
        lemma_fields_stop(fs.drop_last(), i, casing, meta);
    }
}

/// What a field with attributes `a` and type `t` registers.
pub fn aug_step(a: &Attrs, t: &FieldType) -> (r: AugStep)
    ensures
        r@ == aug_step_spec(a@, *t),
{
    match a.kind() {
        Kind::Subcommand(s) => {
            let name = match (s, sub_type(t)) {
                (Ty::Option, Some(inner)) => type_ident_of(inner),
                _ => type_ident_of(t),
            };
            let required = match s {
                Ty::Option => false,
                _ => true,
            };
            AugStep::Subcommand { ty: name, required }
        },
        Kind::Skip(_) => AugStep::Skip,
        Kind::FlattenStruct => AugStep::Flatten(type_ident_of(t)),
        Kind::Arg(s) => {
            let m = modifiers(s, a.parser().kind, a.has_method("default_value"));
            AugStep::Arg(ArgSpec { name: a.cased_name(), modifiers: m, methods: a.field_methods() })
        },
    }
}

/// The registration steps of a record's fields: one per field, in order; at
/// most one field may hold subcommands.
pub open spec fn augmentation_spec(fs: Seq<Field>, casing: CasingStyle, meta: PackageMeta) -> Result<
    Seq<AugStepV>,
    GenError,
> {
    match fields_spec(fs, casing, meta) {
        Ok(v) => if count_subcommands(v) > 1 {
            Err(GenError::MultipleSubcommands)
        } else {
            Ok(Seq::new(fs.len(), |i: int| aug_step_spec(v[i], fs[i].ty)))
        },
        Err(e) => Err(e),
    }
}

/// The views of registration steps.
pub open spec fn steps_view(v: Seq<AugStep>) -> Seq<AugStepV> {
    v.map_values(|s: AugStep| s@)
}

/// The view of a result of registration.
pub open spec fn steps_result_view(r: Result<Vec<AugStep>, GenError>) -> Result<
    Seq<AugStepV>,
    GenError,
> {
    match r {
        Ok(v) => Ok(steps_view(v@)),
        Err(e) => Err(e),
    }
}

/// The registration steps of a record's fields, one per field in order. At
/// most one field may hold subcommands.
pub fn gen_augmentation(fs: &Vec<Field>, casing: CasingStyle, meta: &PackageMeta) -> (r: Result<
    Vec<AugStep>,
    GenError,
>)
    ensures
        steps_result_view(r) == augmentation_spec(fs@, casing, *meta),
        match fields_spec(fs@, casing, *meta) {
            Ok(v) => if count_subcommands(v) > 1 {
                r == Err::<Vec<AugStep>, GenError>(GenError::MultipleSubcommands)
            } else {
                r is Ok && r->Ok_0@.len() == fs@.len() && forall|i: int|
                    0 <= i < fs@.len() ==> #[trigger] r->Ok_0@[i]@ == aug_step_spec(v[i], fs@[i].ty)
            },
            Err(e) => r == Err::<Vec<AugStep>, GenError>(e),
        },
{
    let attrs = match resolve_fields(fs, casing, meta) {
        Ok(a) => a,
        Err(e) => {
            return Err(e);
        },
    };
    let ghost v = fields_spec(fs@, casing, *meta)->Ok_0;
    let mut out: Vec<AugStep> = Vec::new();
    let mut subcommands: usize = 0;
    let mut i: usize = 0;
    while i < attrs.len()
        invariant
            attrs@.len() == fs@.len() == v.len(),
            forall|k: int| 0 <= k < v.len() ==> #[trigger] attrs@[k]@ == v[k],
            i <= attrs@.len(),
            subcommands == count_subcommands(v.subrange(0, i as int)),
            subcommands <= i,
            out@.len() == i,
            forall|k: int|
                0 <= k < i ==> #[trigger] out@[k]@ == aug_step_spec(v[k], fs@[k].ty),
        decreases attrs@.len() - i,
    {
        assert(v.subrange(0, i + 1).drop_last() == v.subrange(0, i as int));
        assert(attrs@[i as int]@ == v[i as int]);
        if let Kind::Subcommand(_) = attrs[i].kind() {
            subcommands = subcommands + 1;
        }
        out.push(aug_step(&attrs[i], &fs[i].ty));
        i = i + 1;
    }
    assert(v.subrange(0, v.len() as int) == v);
    if subcommands > 1 {
        return Err(GenError::MultipleSubcommands);
    }
    assert(steps_view(out@) =~= Seq::new(fs@.len(), |i: int| aug_step_spec(v[i], fs@[i].ty)));
    Ok(out)
}

/// The cardinality table, read by property: an argument repeats exactly for
/// `Vec`, `Option<Vec>` and occurrence counts; takes no value exactly for
/// `bool` and occurrence counts; may go without a value exactly for
/// `Option<Option>` and `Option<Vec>`; takes at most one value exactly for
/// `Option<Option>`; sets its requiredness exactly for a plain value, where
/// it is required unless a default value is given.
pub proof fn lemma_cardinality_table(ty: Ty, kind: ParserKind, has_default: bool)
    ensures
        ({
            let m = modifiers_spec(ty, kind, has_default);
            let counted = ty == Ty::Other && kind == ParserKind::FromOccurrences;
            &&& m.multiple <==> (ty == Ty::Vec || ty == Ty::OptionVec || counted)
            &&& m.takes_value <==> !(ty == Ty::Bool || counted)
            &&& (m.min_values == Some(0u64)) <==> (ty == Ty::OptionOption || ty == Ty::OptionVec)
            &&& m.min_values is Some ==> m.min_values == Some(0u64)
            &&& (m.max_values == Some(1u64)) <==> ty == Ty::OptionOption
            &&& m.max_values is Some ==> m.max_values == Some(1u64)
            &&& (m.required is Some) <==> (ty == Ty::Other && !counted)
            &&& m.required is Some ==> m.required == Some(!has_default)
            &&& (m.validator != Validator::NoValidator) ==> (ty != Ty::Bool && !counted)
        }),
{
}

} // verus!
