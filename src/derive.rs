//! Generation for whole declarations: the application, and for tagged
//! unions the subcommands and their dispatch table.
use vstd::prelude::*;

use crate::attrs::{
    methods_view, struct_attrs, top_level_spec, Attrs, AttrsV, Method, MethodV, PackageMeta,
};
use crate::casing::CasingStyle;
use crate::construct::{constructor_spec, gen_constructor, plans_view, FieldPlan, FieldPlanV};
use crate::decl::{Data, Declaration, Field, Variant, VariantFields};
use crate::doc::strings_view;
use crate::error::GenError;
use crate::gen::{augmentation_spec, gen_augmentation, steps_view, type_ident, type_ident_of, AugStep, AugStepV};
use crate::text::str_eq;

verus! {

/// The casing of generated names where none is set.
pub const DEFAULT_CASING: CasingStyle = CasingStyle::Kebab;

/// What a variant registers besides its name.
#[derive(Clone, Debug, PartialEq, Eq)]
pub enum VariantBody {
    /// The arguments of its named fields.
    Fields(Vec<AugStep>),
    /// Nothing.
    Unit,
    /// Everything that the named declaration registers.
    Delegate(String),
}

/// A subcommand: its external name, what it registers and its calls.
#[derive(Clone, Debug, PartialEq, Eq)]
pub struct SubcommandDecl {
    pub name: String,
    pub body: VariantBody,
    pub methods: Vec<Method>,
}

/// How a variant is constructed once its subcommand is matched.
#[derive(Clone, Debug, PartialEq, Eq)]
pub enum VariantCtor {
    /// From the plans of its named fields.
    Fields(Vec<FieldPlan>),
    /// With nothing.
    Unit,
    /// By the named declaration, from the subcommand's matches.
    Delegate(String),
}

/// An entry of the dispatch table: the subcommand's external name and the
/// variant that it builds.
#[derive(Clone, Debug, PartialEq, Eq)]
pub struct DispatchEntry {
    pub name: String,
    pub variant: String,
    pub ctor: VariantCtor,
}

/// The application: its name, its calls, and whether a subcommand must be
/// given.
#[derive(Clone, Debug, PartialEq, Eq)]
pub struct AppSpec {
    pub name: String,
    pub methods: Vec<Method>,
    pub subcommand_required: bool,
}

/// Everything generated for a declaration.
#[derive(Clone, Debug, PartialEq, Eq)]
pub enum Generated {
    /// A record: its registration steps and construction plans.
    Struct { app: AppSpec, augmentation: Vec<AugStep>, constructor: Vec<FieldPlan> },
    /// A tagged union: its subcommands and dispatch table.
    Enum { app: AppSpec, subcommands: Vec<SubcommandDecl>, dispatch: Vec<DispatchEntry> },
}

impl Generated {
    /// Whether the declaration is a set of subcommands.
    pub fn is_subcommand(&self) -> (r: bool)
        ensures
            r == (self is Enum),
    {
        match self {
            Generated::Struct { .. } => false,
            Generated::Enum { .. } => true,
        }
    }
}

/// The value of what a variant registers.
pub enum VariantBodyV {
    Fields(Seq<AugStepV>),
    Unit,
    Delegate(Seq<char>),
}

/// The value of a subcommand.
pub struct SubcommandDeclV {
    pub name: Seq<char>,
    pub body: VariantBodyV,
    pub methods: Seq<MethodV>,
}

impl View for SubcommandDecl {
    type V = SubcommandDeclV;

    open spec fn view(&self) -> SubcommandDeclV {
        SubcommandDeclV {
            name: self.name@,
            body: match &self.body {
                VariantBody::Fields(v) => VariantBodyV::Fields(steps_view(v@)),
                VariantBody::Unit => VariantBodyV::Unit,
                VariantBody::Delegate(t) => VariantBodyV::Delegate(t@),
            },
            methods: methods_view(self.methods@),
        }
    }
}

/// The value of a variant's construction.
pub enum VariantCtorV {
    Fields(Seq<FieldPlanV>),
    Unit,
    Delegate(Seq<char>),
}

/// The value of a dispatch entry.
pub struct DispatchEntryV {
    pub name: Seq<char>,
    pub variant: Seq<char>,
    pub ctor: VariantCtorV,
}

impl View for DispatchEntry {
    type V = DispatchEntryV;

    open spec fn view(&self) -> DispatchEntryV {
        DispatchEntryV {
            name: self.name@,
            variant: self.variant@,
            ctor: match &self.ctor {
                VariantCtor::Fields(v) => VariantCtorV::Fields(plans_view(v@)),
                VariantCtor::Unit => VariantCtorV::Unit,
                VariantCtor::Delegate(t) => VariantCtorV::Delegate(t@),
            },
        }
    }
}

/// The attributes of a variant under the union's casing.
pub open spec fn variant_attrs(v: Variant, casing: CasingStyle, meta: PackageMeta) -> Result<
    AttrsV,
    GenError,
> {
    struct_attrs(strings_view(v.doc@), v.attrs@, v.ident@, casing, meta)
}

/// What a variant with attributes `a` registers.
pub open spec fn body_spec(v: Variant, a: AttrsV, meta: PackageMeta) -> Result<VariantBodyV, GenError> {
    match v.fields {
        VariantFields::Named(fs) => match augmentation_spec(fs@, a.casing, meta) {
            Ok(s) => Ok(VariantBodyV::Fields(s)),
            Err(e) => Err(e),
        },
        VariantFields::Unit => Ok(VariantBodyV::Unit),
        VariantFields::Unnamed(ts) => if ts@.len() == 1 {
            Ok(VariantBodyV::Delegate(type_ident(ts@[0])))
        } else {
            Err(GenError::TupleVariant)
        },
    }
}

/// The calls of a declaration, or the refusal of `no_version` with a version.
pub open spec fn top_level_result(a: AttrsV, meta: PackageMeta) -> Result<Seq<MethodV>, GenError> {
    if a.no_version && a.version is Some {
        Err(GenError::VersionAndNoVersion)
    } else {
        Ok(top_level_spec(a, meta))
    }
}

/// The subcommand that a variant gives.
pub open spec fn subcommand_spec(v: Variant, casing: CasingStyle, meta: PackageMeta) -> Result<
    SubcommandDeclV,
    GenError,
> {
    match variant_attrs(v, casing, meta) {
        Ok(a) => match body_spec(v, a, meta) {
            Ok(b) => match top_level_result(a, meta) {
                Ok(ms) => Ok(SubcommandDeclV { name: a.cased_name, body: b, methods: ms }),
                Err(e) => Err(e),
            },
            Err(e) => Err(e),
        },
        Err(e) => Err(e),
    }
}

/// How a variant with attributes `a` is constructed.
pub open spec fn ctor_spec(v: Variant, a: AttrsV, meta: PackageMeta) -> Result<VariantCtorV, GenError> {
    match v.fields {
        VariantFields::Named(fs) => match constructor_spec(fs@, a.casing, meta) {
            Ok(s) => Ok(VariantCtorV::Fields(s)),
            Err(e) => Err(e),
        },
        VariantFields::Unit => Ok(VariantCtorV::Unit),
        VariantFields::Unnamed(ts) => if ts@.len() == 1 {
            Ok(VariantCtorV::Delegate(type_ident(ts@[0])))
        } else {
            Err(GenError::TupleVariant)
        },
    }
}

/// The dispatch entry that a variant gives.
pub open spec fn dispatch_spec(v: Variant, casing: CasingStyle, meta: PackageMeta) -> Result<
    DispatchEntryV,
    GenError,
> {
    match variant_attrs(v, casing, meta) {
        Ok(a) => match ctor_spec(v, a, meta) {
            Ok(c) => Ok(DispatchEntryV { name: a.cased_name, variant: v.ident@, ctor: c }),
            Err(e) => Err(e),
        },
        Err(e) => Err(e),
    }
}

/// The subcommands of all variants, in order; the first refusal stops.
pub open spec fn subcommands_spec(vs: Seq<Variant>, casing: CasingStyle, meta: PackageMeta) -> Result<
    Seq<SubcommandDeclV>,
    GenError,
>
    decreases vs.len(),
{
    if vs.len() == 0 {
        Ok(Seq::empty())
    } else {
        match subcommands_spec(vs.drop_last(), casing, meta) {
            Ok(s) => match subcommand_spec(vs.last(), casing, meta) {
                Ok(d) => Ok(s.push(d)),
                Err(e) => Err(e),
            },
            Err(e) => Err(e),
        }
    }
}

/// The dispatch entries of all variants, in order; the first refusal stops.
pub open spec fn dispatches_spec(vs: Seq<Variant>, casing: CasingStyle, meta: PackageMeta) -> Result<
    Seq<DispatchEntryV>,
    GenError,
>
    decreases vs.len(),
{
    if vs.len() == 0 {
        Ok(Seq::empty())
    } else {
        match dispatches_spec(vs.drop_last(), casing, meta) {
            Ok(s) => match dispatch_spec(vs.last(), casing, meta) {
                Ok(d) => Ok(s.push(d)),
                Err(e) => Err(e),
            },
            Err(e) => Err(e),
        }
    }
}

/// The calls of a declaration with attributes `a`.
fn top_level(a: &Attrs, meta: &PackageMeta) -> (r: Result<Vec<Method>, GenError>)
    ensures
        match r {
            Ok(v) => top_level_result(a@, *meta) == Ok::<Seq<MethodV>, GenError>(methods_view(v@)),
            Err(e) => top_level_result(a@, *meta) == Err::<Seq<MethodV>, GenError>(e),
        },
{
    a.top_level_methods(meta)
}

/// The subcommand that one variant gives.
pub fn gen_subcommand(v: &Variant, casing: CasingStyle, meta: &PackageMeta) -> (r: Result<
    SubcommandDecl,
    GenError,
>)
    ensures
        match r {
            Ok(d) => subcommand_spec(*v, casing, *meta) == Ok::<SubcommandDeclV, GenError>(d@),
            Err(e) => subcommand_spec(*v, casing, *meta) == Err::<SubcommandDeclV, GenError>(e),
        },
{
    let attrs = match Attrs::from_struct(&v.doc, &v.attrs, v.ident.as_str(), casing, meta) {
        Ok(a) => a,
        Err(e) => {
            return Err(e);
        },
    };
    let body = match &v.fields {
        VariantFields::Named(fs) => match gen_augmentation(fs, attrs.casing(), meta) {
            Ok(s) => VariantBody::Fields(s),
            Err(e) => {
                return Err(e);
            },
        },
        VariantFields::Unit => VariantBody::Unit,
        VariantFields::Unnamed(ts) => {
            if ts.len() == 1 {
                VariantBody::Delegate(type_ident_of(&ts[0]))
            } else {
                return Err(GenError::TupleVariant);
            }
        },
    };
    let methods = match top_level(&attrs, meta) {
        Ok(m) => m,
        Err(e) => {
            return Err(e);
        },
    };
    Ok(SubcommandDecl { name: attrs.cased_name(), body, methods })
}

/// The dispatch entry that one variant gives.
pub fn gen_dispatch_entry(v: &Variant, casing: CasingStyle, meta: &PackageMeta) -> (r: Result<
    DispatchEntry,
    GenError,
>)
    ensures
        match r {
            Ok(d) => dispatch_spec(*v, casing, *meta) == Ok::<DispatchEntryV, GenError>(d@),
            Err(e) => dispatch_spec(*v, casing, *meta) == Err::<DispatchEntryV, GenError>(e),
        },
{
    let attrs = match Attrs::from_struct(&v.doc, &v.attrs, v.ident.as_str(), casing, meta) {
        Ok(a) => a,
        Err(e) => {
            return Err(e);
        },
    };
    let ctor = match &v.fields {
        VariantFields::Named(fs) => match gen_constructor(fs, attrs.casing(), meta) {
            Ok(s) => VariantCtor::Fields(s),
            Err(e) => {
                return Err(e);
            },
        },
        VariantFields::Unit => VariantCtor::Unit,
        VariantFields::Unnamed(ts) => {
            if ts.len() == 1 {
                VariantCtor::Delegate(type_ident_of(&ts[0]))
            } else {
                return Err(GenError::TupleVariant);
            }
        },
    };
    Ok(DispatchEntry { name: attrs.cased_name(), variant: v.ident.clone(), ctor })
}

/// The subcommands of a tagged union, one per variant in order.
pub fn gen_augment_clap_enum(vs: &Vec<Variant>, casing: CasingStyle, meta: &PackageMeta) -> (r: Result<
    Vec<SubcommandDecl>,
    GenError,
>)
    ensures
        match r {
            Ok(d) => subcommands_spec(vs@, casing, *meta) == Ok::<Seq<SubcommandDeclV>, GenError>(
                d@.map_values(|x: SubcommandDecl| x@),
            ),
            Err(e) => subcommands_spec(vs@, casing, *meta) == Err::<Seq<SubcommandDeclV>, GenError>(e),
        },
{
    let mut out: Vec<SubcommandDecl> = Vec::new();
    let mut i: usize = 0;
    assert(out@.map_values(|x: SubcommandDecl| x@) =~= Seq::<SubcommandDeclV>::empty());
    while i < vs.len()
        invariant
            i <= vs@.len(),
            subcommands_spec(vs@.subrange(0, i as int), casing, *meta) == Ok::<
                Seq<SubcommandDeclV>,
                GenError,
            >(out@.map_values(|x: SubcommandDecl| x@)),
        decreases vs@.len() - i,
    {
        assert(vs@.subrange(0, i + 1).drop_last() == vs@.subrange(0, i as int));
        match gen_subcommand(&vs[i], casing, meta) {
            Ok(d) => {
                let ghost before = out@;
                out.push(d);
                assert(out@.map_values(|x: SubcommandDecl| x@) =~= before.map_values(
                    |x: SubcommandDecl| x@,
                ).push(d@));
            },
            Err(e) => {
                proof {
                    lemma_subcommands_stop(vs@, i as int, casing, *meta);
                }
                return Err(e);
            },
        }
        i = i + 1;
    }
    assert(vs@.subrange(0, vs@.len() as int) == vs@);
    Ok(out)
}

/// The dispatch table of a tagged union, one entry per variant in order.
pub fn gen_from_subcommand(vs: &Vec<Variant>, casing: CasingStyle, meta: &PackageMeta) -> (r: Result<
    Vec<DispatchEntry>,
    GenError,
>)
    ensures
        match r {
            Ok(d) => dispatches_spec(vs@, casing, *meta) == Ok::<Seq<DispatchEntryV>, GenError>(
                d@.map_values(|x: DispatchEntry| x@),
            ),
            Err(e) => dispatches_spec(vs@, casing, *meta) == Err::<Seq<DispatchEntryV>, GenError>(e),
        },
{
    let mut out: Vec<DispatchEntry> = Vec::new();
    let mut i: usize = 0;
    assert(out@.map_values(|x: DispatchEntry| x@) =~= Seq::<DispatchEntryV>::empty());
    while i < vs.len()
        invariant
            i <= vs@.len(),
            dispatches_spec(vs@.subrange(0, i as int), casing, *meta) == Ok::<
                Seq<DispatchEntryV>,
                GenError,
            >(out@.map_values(|x: DispatchEntry| x@)),
        decreases vs@.len() - i,
    {
        assert(vs@.subrange(0, i + 1).drop_last() == vs@.subrange(0, i as int));
        match gen_dispatch_entry(&vs[i], casing, meta) {
            Ok(d) => {
                let ghost before = out@;
                out.push(d);
                assert(out@.map_values(|x: DispatchEntry| x@) =~= before.map_values(
                    |x: DispatchEntry| x@,
                ).push(d@));
            },
            Err(e) => {
                proof {
                    lemma_dispatches_stop(vs@, i as int, casing, *meta);
                }
                return Err(e);
            },
        }
        i = i + 1;
    }
    assert(vs@.subrange(0, vs@.len() as int) == vs@);
    Ok(out)
}

/// Once a variant is refused, the subcommands are refused with its error.
proof fn lemma_subcommands_stop(vs: Seq<Variant>, i: int, casing: CasingStyle, meta: PackageMeta)
    requires
        0 <= i < vs.len(),
        subcommands_spec(vs.subrange(0, i), casing, meta) is Ok,
        subcommand_spec(vs[i], casing, meta) is Err,
    ensures
        subcommands_spec(vs, casing, meta) == Err::<Seq<SubcommandDeclV>, GenError>(
            subcommand_spec(vs[i], casing, meta)->Err_0,
        ),
    decreases vs.len() - i,
{
    if i == vs.len() - 1 {
        assert(vs.drop_last() == vs.subrange(0, i));
    } else {
        assert(vs.drop_last().subrange(0, i) == vs.subrange(0, i));
        assert(vs.drop_last()[i] == vs[i]);
        lemma_subcommands_stop(vs.drop_last(), i, casing, meta);
    }
}

/// Once a variant is refused, the dispatch table is refused with its error.
proof fn lemma_dispatches_stop(vs: Seq<Variant>, i: int, casing: CasingStyle, meta: PackageMeta)
    requires
        0 <= i < vs.len(),
        dispatches_spec(vs.subrange(0, i), casing, meta) is Ok,
        dispatch_spec(vs[i], casing, meta) is Err,
    ensures
        dispatches_spec(vs, casing, meta) == Err::<Seq<DispatchEntryV>, GenError>(
            dispatch_spec(vs[i], casing, meta)->Err_0,
        ),
    decreases vs.len() - i,
{
    if i == vs.len() - 1 {
        assert(vs.drop_last() == vs.subrange(0, i));
    } else {
        assert(vs.drop_last().subrange(0, i) == vs.subrange(0, i));
        assert(vs.drop_last()[i] == vs[i]);
        lemma_dispatches_stop(vs.drop_last(), i, casing, meta);
    }
}

/// The first entry of the dispatch table whose name is `name`.
pub open spec fn dispatch_index(table: Seq<DispatchEntry>, name: Seq<char>) -> Option<int>
    decreases table.len(),
{
    if table.len() == 0 {
        None
    } else {
        match dispatch_index(table.drop_last(), name) {
            Some(i) => Some(i),
            None => if table.last().name@ == name {
                Some(table.len() - 1)
            } else {
                None
            },
        }
    }
}

/// The position of the variant that the matched subcommand `n` builds;
/// `None` where no variant carries that name.
pub fn from_subcommand(table: &Vec<DispatchEntry>, n: &str) -> (r: Option<usize>)
    ensures
        match dispatch_index(table@, n@) {
            Some(i) => r is Some && r->Some_0 == i,
            None => r is None,
        },
{
    let mut i: usize = 0;
    while i < table.len()
        invariant
            i <= table@.len(),
            dispatch_index(table@.subrange(0, i as int), n@) is None,
        decreases table@.len() - i,
    {
        assert(table@.subrange(0, i + 1).drop_last() == table@.subrange(0, i as int));
        if str_eq(table[i].name.as_str(), n) {
            assert(table@.subrange(0, i + 1).last() == table@[i as int]);
            assert(dispatch_index(table@.subrange(0, i + 1), n@) == Some(i as int));
            proof {
                lemma_dispatch_prefix(table@, i as int + 1, n@);
            }
            return Some(i);
        }
        i = i + 1;
    }
    assert(table@.subrange(0, table@.len() as int) == table@);
    None
}

/// A match in a prefix of the table is the match in the whole table.
proof fn lemma_dispatch_prefix(table: Seq<DispatchEntry>, k: int, name: Seq<char>)
    requires
        0 <= k <= table.len(),
        dispatch_index(table.subrange(0, k), name) is Some,
    ensures
        dispatch_index(table, name) == dispatch_index(table.subrange(0, k), name),
    decreases table.len() - k,
{
    if k == table.len() {
        assert(table.subrange(0, k) == table);
    } else {
        assert(table.drop_last().subrange(0, k) == table.subrange(0, k));
        lemma_dispatch_prefix(table.drop_last(), k, name);
    }
}

/// The attributes of a declaration: named after the package (empty where
/// the metadata has no name), in the default casing.
pub open spec fn app_attrs(d: Declaration, meta: PackageMeta) -> Result<AttrsV, GenError> {
    struct_attrs(
        strings_view(d.doc@),
        d.attrs@,
        match meta.name {
            Some(n) => n@,
            None => Seq::empty(),
        },
        DEFAULT_CASING,
        meta,
    )
}

/// Whether `app` is the application of a declaration with attributes `a`
/// and calls `ms`.
pub open spec fn is_app(app: AppSpec, a: AttrsV, ms: Seq<MethodV>, subcommand_required: bool) -> bool {
    app.name@ == a.cased_name && methods_view(app.methods@) == ms && app.subcommand_required
        == subcommand_required
}

/// The application of a declaration: named after the package, cased by the
/// declaration's casing, with its calls.
pub fn gen_clap(d: &Declaration, meta: &PackageMeta, subcommand_required: bool) -> (r: Result<
    (AppSpec, Attrs),
    GenError,
>)
    ensures
        match app_attrs(*d, *meta) {
            Ok(a) => match top_level_result(a, *meta) {
                Ok(ms) => r is Ok && r->Ok_0.1@ == a && is_app(r->Ok_0.0, a, ms, subcommand_required),
                Err(e) => r == Err::<(AppSpec, Attrs), GenError>(e),
            },
            Err(e) => r == Err::<(AppSpec, Attrs), GenError>(e),
        },
{
    let name = match &meta.name {
        Some(n) => n.clone(),
        None => String::new(),
    };
    let attrs = match Attrs::from_struct(&d.doc, &d.attrs, name.as_str(), DEFAULT_CASING, meta) {
        Ok(a) => a,
        Err(e) => {
            return Err(e);
        },
    };
    let methods = match top_level(&attrs, meta) {
        Ok(m) => m,
        Err(e) => {
            return Err(e);
        },
    };
    let app = AppSpec { name: attrs.cased_name(), methods, subcommand_required };
    Ok((app, attrs))
}

/// What a record generates, given its application's attributes `a` and
/// calls `ms`.
pub open spec fn struct_generated(
    fs: Seq<Field>,
    a: AttrsV,
    ms: Seq<MethodV>,
    meta: PackageMeta,
    r: Result<Generated, GenError>,
) -> bool {
    match augmentation_spec(fs, a.casing, meta) {
        Err(e) => r == Err::<Generated, GenError>(e),
        Ok(steps) => match constructor_spec(fs, a.casing, meta) {
            Err(e) => r == Err::<Generated, GenError>(e),
            Ok(plans) => r matches Ok(Generated::Struct { app, augmentation, constructor }) && is_app(
                app,
                a,
                ms,
                false,
            ) && steps_view(augmentation@) == steps && plans_view(constructor@) == plans,
        },
    }
}

/// What a tagged union generates, given its application's attributes `a`
/// and calls `ms`.
pub open spec fn enum_generated(
    vs: Seq<Variant>,
    a: AttrsV,
    ms: Seq<MethodV>,
    meta: PackageMeta,
    r: Result<Generated, GenError>,
) -> bool {
    match subcommands_spec(vs, a.casing, meta) {
        Err(e) => r == Err::<Generated, GenError>(e),
        Ok(subs) => match dispatches_spec(vs, a.casing, meta) {
            Err(e) => r == Err::<Generated, GenError>(e),
            Ok(table) => r matches Ok(Generated::Enum { app, subcommands, dispatch }) && is_app(
                app,
                a,
                ms,
                true,
            ) && subcommands@.map_values(|x: SubcommandDecl| x@) == subs && dispatch@.map_values(
                |x: DispatchEntry| x@,
            ) == table,
        },
    }
}

/// What a declaration generates.
pub open spec fn generated_spec(d: Declaration, meta: PackageMeta, r: Result<Generated, GenError>) -> bool {
    match d.data {
        Data::Other => r == Err::<Generated, GenError>(GenError::UnsupportedShape),
        _ => match app_attrs(d, meta) {
            Err(e) => r == Err::<Generated, GenError>(e),
            Ok(a) => match top_level_result(a, meta) {
                Err(e) => r == Err::<Generated, GenError>(e),
                Ok(ms) => match d.data {
                    Data::Struct(fs) => struct_generated(fs@, a, ms, meta, r),
                    Data::Enum(vs) => enum_generated(vs@, a, ms, meta, r),
                    Data::Other => false,
                },
            },
        },
    }
}

/// Generates everything for a declaration: a record gets its registration
/// steps and construction plans, a tagged union its subcommands (one of
/// which must be given) and dispatch table; fields and variants inherit the
/// declaration's casing.
pub fn impl_structopt(d: &Declaration, meta: &PackageMeta) -> (r: Result<Generated, GenError>)
    ensures
        generated_spec(*d, *meta, r),
{
    match &d.data {
        Data::Struct(fs) => {
            let (app, attrs) = match gen_clap(d, meta, false) {
                Ok(x) => x,
                Err(e) => {
                    return Err(e);
                },
            };
            let augmentation = match gen_augmentation(fs, attrs.casing(), meta) {
                Ok(x) => x,
                Err(e) => {
                    return Err(e);
                },
            };
            let constructor = match gen_constructor(fs, attrs.casing(), meta) {
                Ok(x) => x,
                Err(e) => {
                    return Err(e);
                },
            };
            Ok(Generated::Struct { app, augmentation, constructor })
        },
        Data::Enum(vs) => {
            let (app, attrs) = match gen_clap(d, meta, true) {
                Ok(x) => x,
                Err(e) => {
                    return Err(e);
                },
            };
            let subcommands = match gen_augment_clap_enum(vs, attrs.casing(), meta) {
                Ok(x) => x,
                Err(e) => {
                    return Err(e);
                },
            };
            let dispatch = match gen_from_subcommand(vs, attrs.casing(), meta) {
                Ok(x) => x,
                Err(e) => {
                    return Err(e);
                },
            };
            Ok(Generated::Enum { app, subcommands, dispatch })
        },
        Data::Other => Err(GenError::UnsupportedShape),
    }
}

} // verus!
