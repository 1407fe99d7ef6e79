//! Resolved attributes of a declaration, a variant or a field.
use vstd::prelude::*;

use crate::author::{authors_from, process_author_str};
use crate::casing::{lit_casing, CasingStyle};
use crate::directive::{Expr, ExprV, ParserSpec, StructOptAttr};
use crate::doc::{doc_methods, extract_doc, pairs_view, strings_view};
use crate::error::GenError;
use crate::parser::{resolve_parser, Parser, ParserKind, ParserV};
use crate::text::str_eq;
use crate::ty::{spec_ty_of, ty_from_field, FieldType, Ty};

verus! {

/// A registration call: a builder method and its arguments, in order.
#[derive(Clone, Debug, PartialEq, Eq)]
pub struct Method {
    pub name: String,
    pub args: Vec<Expr>,
}

/// The value of a registration call.
pub struct MethodV {
    pub name: Seq<char>,
    pub args: Seq<ExprV>,
}

impl View for Method {
    type V = MethodV;

    open spec fn view(&self) -> MethodV {
        MethodV { name: self.name@, args: self.args@.map_values(|e: Expr| e@) }
    }
}

/// The views of a sequence of registration calls.
pub open spec fn methods_view(ms: Seq<Method>) -> Seq<MethodV> {
    ms.map_values(|m: Method| m@)
}

/// The call `name("arg")`.
pub open spec fn str_method(name: Seq<char>, arg: Seq<char>) -> MethodV {
    MethodV { name, args: seq![ExprV::Str(arg)] }
}

impl Method {
    /// The call `name("arg")`.
    pub fn with_str(name: &str, arg: &str) -> (r: Method)
        ensures
            r@ == str_method(name@, arg@),
    {
        let v = vec![Expr::Str(String::from_str(arg))];
        let r = Method { name: String::from_str(name), args: v };
        assert(r@.args =~= seq![ExprV::Str(arg@)]);
        r
    }

    /// A copy of this call.
    pub fn cloned(&self) -> (r: Method)
        ensures
            r@ == self@,
    {
        let mut args: Vec<Expr> = Vec::new();
        let mut i: usize = 0;
        while i < self.args.len()
            invariant
                i <= self.args@.len(),
                args@ == self.args@.subrange(0, i as int),
            decreases self.args@.len() - i,
        {
            args.push(self.args[i].cloned());
            assert(args@ =~= self.args@.subrange(0, i + 1));
            i = i + 1;
        }
        assert(args@ =~= self.args@);
        Method { name: self.name.clone(), args }
    }
}

/// A copy of a sequence of calls.
pub fn clone_methods(ms: &Vec<Method>) -> (r: Vec<Method>)
    ensures
        methods_view(r@) == methods_view(ms@),
{
    let mut out: Vec<Method> = Vec::new();
    let mut i: usize = 0;
    while i < ms.len()
        invariant
            i <= ms@.len(),
            out@.len() == i,
            forall|k: int| 0 <= k < i ==> #[trigger] out@[k]@ == ms@[k]@,
        decreases ms@.len() - i,
    {
        out.push(ms[i].cloned());
        i = i + 1;
    }
    assert(methods_view(out@) =~= methods_view(ms@));
    out
}

/// The role of a field.
#[derive(Clone, Debug, PartialEq, Eq)]
pub enum Kind {
    /// An ordinary argument of the given shape.
    Arg(Ty),
    /// A set of subcommands, held in a field of the given shape.
    Subcommand(Ty),
    /// The arguments of another declaration, embedded.
    FlattenStruct,
    /// Not taken from the command line: the given expression, or the type's
    /// default.
    Skip(Option<Expr>),
}

/// The value of a role.
pub enum KindV {
    Arg(Ty),
    Subcommand(Ty),
    FlattenStruct,
    Skip(Option<ExprV>),
}

impl View for Kind {
    type V = KindV;

    open spec fn view(&self) -> KindV {
        match self {
            Kind::Arg(t) => KindV::Arg(*t),
            Kind::Subcommand(t) => KindV::Subcommand(*t),
            Kind::FlattenStruct => KindV::FlattenStruct,
            Kind::Skip(None) => KindV::Skip(None),
            Kind::Skip(Some(e)) => KindV::Skip(Some(e@)),
        }
    }
}

impl Kind {
    /// A copy of this role.
    pub fn cloned(&self) -> (r: Kind)
        ensures
            r@ == self@,
    {
        match self {
            Kind::Arg(t) => Kind::Arg(*t),
            Kind::Subcommand(t) => Kind::Subcommand(*t),
            Kind::FlattenStruct => Kind::FlattenStruct,
            Kind::Skip(None) => Kind::Skip(None),
            Kind::Skip(Some(e)) => Kind::Skip(Some(e.cloned())),
        }
    }
}

/// The package metadata that bare `about`, `author` and the default version
/// fall back on.
#[derive(Clone, Debug, PartialEq, Eq)]
pub struct PackageMeta {
    pub name: Option<String>,
    pub version: Option<String>,
    pub authors: Option<String>,
    pub description: Option<String>,
}

/// The view of an optional string.
pub open spec fn opt_view(o: Option<String>) -> Option<Seq<char>> {
    match o {
        Some(s) => Some(s@),
        None => None,
    }
}

/// The view of an optional call.
pub open spec fn opt_method_view(o: Option<Method>) -> Option<MethodV> {
    match o {
        Some(m) => Some(m@),
        None => None,
    }
}

/// The value of resolved attributes.
pub struct AttrsV {
    pub name: Seq<char>,
    pub cased_name: Seq<char>,
    pub casing: CasingStyle,
    pub methods: Seq<MethodV>,
    pub parser: ParserV,
    pub author: Option<MethodV>,
    pub about: Option<MethodV>,
    pub version: Option<MethodV>,
    pub no_version: bool,
    pub has_custom_parser: bool,
    pub kind: KindV,
}

impl AttrsV {
    /// The invariant of resolved attributes: the cased name is the casing
    /// style applied to the current name.
    pub open spec fn wf(self) -> bool {
        self.cased_name == self.casing.spec_translate(self.name)
    }
}

/// Resolved attributes. `cased_name` is always the casing style applied to
/// the current `name`.
#[derive(Clone, Debug)]
pub struct Attrs {
    name: String,
    cased_name: String,
    casing: CasingStyle,
    methods: Vec<Method>,
    parser: Parser,
    author: Option<Method>,
    about: Option<Method>,
    version: Option<Method>,
    no_version: bool,
    has_custom_parser: bool,
    kind: Kind,
}

impl View for Attrs {
    type V = AttrsV;

    closed spec fn view(&self) -> AttrsV {
        AttrsV {
            name: self.name@,
            cased_name: self.cased_name@,
            casing: self.casing,
            methods: methods_view(self.methods@),
            parser: self.parser@,
            author: opt_method_view(self.author),
            about: opt_method_view(self.about),
            version: opt_method_view(self.version),
            no_version: self.no_version,
            has_custom_parser: self.has_custom_parser,
            kind: self.kind@,
        }
    }
}

/// The attributes before any directive: the given name and casing, no calls,
/// the default conversion, an ordinary argument of other shape.
pub open spec fn initial_attrs(name: Seq<char>, casing: CasingStyle) -> AttrsV {
    AttrsV {
        name,
        cased_name: casing.spec_translate(name),
        casing,
        methods: Seq::empty(),
        parser: ParserV {
            kind: ParserKind::TryFromStr,
            func: ExprV::Path("::std::str::FromStr::from_str"@),
        },
        author: None,
        about: None,
        version: None,
        no_version: false,
        has_custom_parser: false,
        kind: KindV::Arg(Ty::Other),
    }
}

/// `name = "arg"`: a rename where `name` is `name` (the cased name follows),
/// a call `name("arg")` otherwise.
pub open spec fn with_str_method(a: AttrsV, name: Seq<char>, arg: Seq<char>) -> AttrsV {
    if name == "name"@ {
        AttrsV { name: arg, cased_name: a.casing.spec_translate(arg), ..a }
    } else {
        AttrsV { methods: a.methods.push(str_method(name, arg)), ..a }
    }
}

/// Sets the role; a second role besides an ordinary argument is refused.
pub open spec fn with_kind(a: AttrsV, k: KindV) -> Result<AttrsV, GenError> {
    if a.kind is Arg {
        Ok(AttrsV { kind: k, ..a })
    } else {
        Err(GenError::ConflictingKinds)
    }
}

/// The value of `about` or `author`: the literal where one is given, else the
/// package metadata; `None` where neither is there.
pub open spec fn lit_or_meta(lit: Option<String>, meta: Option<String>) -> Option<Seq<char>> {
    match lit {
        Some(l) => Some(l@),
        None => opt_view(meta),
    }
}

/// The attributes after one more directive.
pub open spec fn apply_attr(a: AttrsV, d: StructOptAttr, meta: PackageMeta) -> Result<AttrsV, GenError> {
    match d {
        StructOptAttr::Short => Ok(with_str_method(a, "short"@, a.cased_name)),
        StructOptAttr::Long => Ok(with_str_method(a, "long"@, a.cased_name)),
        StructOptAttr::Subcommand => with_kind(a, KindV::Subcommand(Ty::Other)),
        StructOptAttr::Flatten => with_kind(a, KindV::FlattenStruct),
        StructOptAttr::Skip(None) => with_kind(a, KindV::Skip(None)),
        StructOptAttr::Skip(Some(e)) => with_kind(a, KindV::Skip(Some(e@))),
        StructOptAttr::NoVersion => Ok(AttrsV { no_version: true, ..a }),
        StructOptAttr::About(lit) => match lit_or_meta(lit, meta.description) {
            Some(v) => Ok(AttrsV { about: Some(str_method("about"@, v)), ..a }),
            None => Err(GenError::MissingAbout),
        },
        StructOptAttr::Author(lit) => match lit_or_meta(lit, meta.authors) {
            Some(v) => Ok(AttrsV { author: Some(str_method("author"@, authors_from(v, 0))), ..a }),
            None => Err(GenError::MissingAuthor),
        },
        StructOptAttr::Version(v) => Ok(AttrsV { version: Some(str_method("version"@, v@)), ..a }),
        StructOptAttr::NameLitStr(n, l) => Ok(with_str_method(a, n@, l@)),
        StructOptAttr::DefaultValue(Some(l)) => Ok(with_str_method(a, "default_value"@, l@)),
        StructOptAttr::NameExpr(n, e) => Ok(
            AttrsV { methods: a.methods.push(MethodV { name: n@, args: seq![e@] }), ..a },
        ),
        StructOptAttr::MethodCall(n, args) => Ok(
            AttrsV {
                methods: a.methods.push(
                    MethodV { name: n@, args: args@.map_values(|e: Expr| e@) },
                ),
                ..a
            },
        ),
        StructOptAttr::RenameAll(l) => match lit_casing(l@) {
            Ok(c) => Ok(AttrsV { casing: c, cased_name: c.spec_translate(a.name), ..a }),
            Err(e) => Err(e),
        },
        StructOptAttr::Parse(spec) => parse_directive(a, spec),
        _ => Err(GenError::UnsupportedDirective),
    }
}

/// The attributes after `parse(spec)`.
pub open spec fn parse_directive(a: AttrsV, spec: ParserSpec) -> Result<AttrsV, GenError> {
    match resolve_parser(spec) {
        Ok(p) => Ok(AttrsV { has_custom_parser: true, parser: p, ..a }),
        Err(e) => Err(e),
    }
}

/// The attributes after the directives `ds`, in order; the first refusal
/// stops.
pub open spec fn apply_attrs(a: AttrsV, ds: Seq<StructOptAttr>, meta: PackageMeta) -> Result<
    AttrsV,
    GenError,
>
    decreases ds.len(),
{
    if ds.len() == 0 {
        Ok(a)
    } else {
        match apply_attrs(a, ds.drop_last(), meta) {
            Ok(b) => apply_attr(b, ds.last(), meta),
            Err(e) => Err(e),
        }
    }
}

/// The attributes with the registrations of a documentation appended.
pub open spec fn with_doc(a: AttrsV, docs: Seq<(Seq<char>, Seq<char>)>) -> AttrsV {
    AttrsV {
        methods: a.methods + docs.map_values(|p: (Seq<char>, Seq<char>)| str_method(p.0, p.1)),
        ..a
    }
}

/// Whether a call named `name` is among the calls.
pub open spec fn has_method_spec(a: AttrsV, name: Seq<char>) -> bool {
    exists|i: int| 0 <= i < a.methods.len() && #[trigger] a.methods[i].name == name
}

/// The view of a result of resolution.
pub open spec fn result_view(r: Result<Attrs, GenError>) -> Result<AttrsV, GenError> {
    match r {
        Ok(a) => Ok(a@),
        Err(e) => Err(e),
    }
}


/// The value of `about` or `author`, as a call named `ident`: the literal
/// where one is given, else the package metadata, with author lists
/// reformatted; `None` where neither gives a value.
pub open spec fn lit_or_env_spec(ident: Seq<char>, lit: Option<String>, meta: Option<String>) -> Option<
    MethodV,
> {
    match lit_or_meta(lit, meta) {
        Some(v) => Some(
            str_method(
                ident,
                if ident == "author"@ {
                    authors_from(v, 0)
                } else {
                    v
                },
            ),
        ),
        None => None,
    }
}

impl Method {
    /// The call `ident("value")` where the value is the literal, or else the
    /// package metadata; an author list is reformatted.
    pub fn from_lit_or_env(ident: &str, lit: &Option<String>, meta: &Option<String>) -> (r: Option<
        Method,
    >)
        ensures
            opt_method_view(r) == lit_or_env_spec(ident@, *lit, *meta),
    {
        let v = match lit {
            Some(l) => l,
            None => match meta {
                Some(m) => m,
                None => {
                    return None;
                },
            },
        };
        if str_eq(ident, "author") {
            let edited = process_author_str(v.as_str());
            Some(Method::with_str(ident, edited.as_str()))
        } else {
            Some(Method::with_str(ident, v.as_str()))
        }
    }
}

/// The attributes of a field once its role is checked against its type.
pub open spec fn finish_field(a: AttrsV, ty: FieldType) -> Result<AttrsV, GenError> {
    match a.kind {
        KindV::FlattenStruct => if a.has_custom_parser {
            Err(GenError::ParseOnFlatten)
        } else if a.methods.len() > 0 {
            Err(GenError::MethodsOnFlatten)
        } else {
            Ok(a)
        },
        KindV::Subcommand(_) => if a.has_custom_parser {
            Err(GenError::ParseOnSubcommand)
        } else if exists|i: int| 0 <= i < a.methods.len() && #[trigger] a.methods[i].name != "help"@ {
            Err(GenError::MethodOnSubcommand)
        } else {
            match spec_ty_of(ty) {
                Ty::OptionOption => Err(GenError::OptionOptionSubcommand),
                Ty::OptionVec => Err(GenError::OptionVecSubcommand),
                t => Ok(AttrsV { kind: KindV::Subcommand(t), ..a }),
            }
        },
        KindV::Skip(_) => if exists|i: int|
            0 <= i < a.methods.len() && #[trigger] a.methods[i].name != "help"@ && a.methods[i].name
                != "long_help"@ {
            Err(GenError::MethodOnSkip)
        } else {
            Ok(a)
        },
        KindV::Arg(_) => {
            let t = arg_shape(a, ty);
            match t {
                Ty::Bool => if has_method_spec(a, "default_value"@) {
                    Err(GenError::DefaultValueForBool)
                } else if has_method_spec(a, "required"@) {
                    Err(GenError::RequiredForBool)
                } else {
                    Ok(AttrsV { kind: KindV::Arg(t), ..a })
                },
                Ty::Option => if has_method_spec(a, "default_value"@) {
                    Err(GenError::DefaultValueForOption)
                } else if has_method_spec(a, "required"@) {
                    Err(GenError::RequiredForOption)
                } else {
                    Ok(AttrsV { kind: KindV::Arg(t), ..a })
                },
                Ty::OptionOption => if !(has_method_spec(a, "long"@) || has_method_spec(
                    a,
                    "short"@,
                )) {
                    Err(GenError::OptionOptionPositional)
                } else {
                    Ok(AttrsV { kind: KindV::Arg(t), ..a })
                },
                Ty::OptionVec => if !(has_method_spec(a, "long"@) || has_method_spec(a, "short"@)) {
                    Err(GenError::OptionVecPositional)
                } else {
                    Ok(AttrsV { kind: KindV::Arg(t), ..a })
                },
                _ => Ok(AttrsV { kind: KindV::Arg(t), ..a }),
            }
        },
    }
}

/// The shape of an ordinary argument: a custom conversion keeps `Option` and
/// `Vec` and makes every other shape `Other`.
pub open spec fn arg_shape(a: AttrsV, ty: FieldType) -> Ty {
    let t = spec_ty_of(ty);
    if a.has_custom_parser && !(t == Ty::Option || t == Ty::Vec) {
        Ty::Other
    } else {
        t
    }
}

/// The attributes of a declaration or variant once its directives are
/// checked: field-only directives are refused.
pub open spec fn finish_struct(a: AttrsV) -> Result<AttrsV, GenError> {
    if a.has_custom_parser {
        Err(GenError::ParseOnTopLevel)
    } else {
        match a.kind {
            KindV::Subcommand(_) => Err(GenError::SubcommandOnTopLevel),
            KindV::FlattenStruct => Err(GenError::FlattenOnTopLevel),
            KindV::Skip(_) => Err(GenError::SkipOnTopLevel),
            KindV::Arg(_) => Ok(a),
        }
    }
}

/// What `from_struct` resolves: the directives, then the documentation under
/// `about`, then the top-level checks.
pub open spec fn struct_attrs(
    docs: Seq<Seq<char>>,
    ds: Seq<StructOptAttr>,
    name: Seq<char>,
    casing: CasingStyle,
    meta: PackageMeta,
) -> Result<AttrsV, GenError> {
    match apply_attrs(initial_attrs(name, casing), ds, meta) {
        Ok(a) => finish_struct(with_doc(a, doc_methods(docs, "about"@))),
        Err(e) => Err(e),
    }
}

/// What `from_field` resolves: the documentation under `help`, then the
/// directives, then the checks of the role against the type.
pub open spec fn field_attrs(
    ident: Seq<char>,
    ty: FieldType,
    docs: Seq<Seq<char>>,
    ds: Seq<StructOptAttr>,
    casing: CasingStyle,
    meta: PackageMeta,
) -> Result<AttrsV, GenError> {
    match apply_attrs(with_doc(initial_attrs(ident, casing), doc_methods(docs, "help"@)), ds, meta) {
        Ok(a) => finish_field(a, ty),
        Err(e) => Err(e),
    }
}

impl Attrs {
    /// Fresh attributes for `name` under `casing`.
    pub fn new(name: &str, casing: CasingStyle) -> (r: Attrs)
        ensures
            r@ == initial_attrs(name@, casing),
    {
        let cased_name = casing.translate(name);
        let parser = Parser::default_parser();
        let r = Attrs {
            name: String::from_str(name),
            cased_name,
            casing,
            methods: Vec::new(),
            parser,
            author: None,
            about: None,
            version: None,
            no_version: false,
            has_custom_parser: false,
            kind: Kind::Arg(Ty::Other),
        };
        assert(r@.methods =~= Seq::<MethodV>::empty());
        r
    }

    /// `name = "arg"`: renames where `name` is `name`, records the call
    /// `name("arg")` otherwise.
    pub fn push_str_method(&mut self, name: &str, arg: &str)
        ensures
            final(self)@ == with_str_method(old(self)@, name@, arg@),
            old(self)@.wf() ==> final(self)@.wf(),
    {
        if str_eq(name, "name") {
            self.cased_name = self.casing.translate(arg);
            self.name = String::from_str(arg);
        } else {
            self.methods.push(Method::with_str(name, arg));
            assert(methods_view(self.methods@) =~= methods_view(old(self).methods@).push(
                str_method(name@, arg@),
            ));
        }
    }

    fn push_method(&mut self, m: Method)
        ensures
            final(self)@ == (AttrsV { methods: old(self)@.methods.push(m@), ..old(self)@ }),
    {
        self.methods.push(m);
        assert(methods_view(self.methods@) =~= methods_view(old(self).methods@).push(m@));
    }

    /// Sets the role; refused where a role other than an ordinary argument is
    /// already set.
    pub fn set_kind(&mut self, kind: Kind) -> (r: Result<(), GenError>)
        ensures
            match with_kind(old(self)@, kind@) {
                Ok(a) => r is Ok && final(self)@ == a,
                Err(e) => r == Err::<(), GenError>(e) && final(self)@ == old(self)@,
            },
    {
        if let Kind::Arg(_) = self.kind {
            self.kind = kind;
            Ok(())
        } else {
            Err(GenError::ConflictingKinds)
        }
    }

    /// Applies one directive.
    pub fn push_attr(&mut self, d: &StructOptAttr, meta: &PackageMeta) -> (r: Result<(), GenError>)
        ensures
            match apply_attr(old(self)@, *d, *meta) {
                Ok(a) => r is Ok && final(self)@ == a,
                Err(e) => r == Err::<(), GenError>(e),
            },
            old(self)@.wf() && r is Ok ==> final(self)@.wf(),
    {
        proof {
            if self@.wf() {
                lemma_apply_attr_wf(self@, *d, *meta);
            }
        }
        match d {
            StructOptAttr::Short => {
                let cased = self.cased_name.clone();
                self.push_str_method("short", cased.as_str());
                Ok(())
            },
            StructOptAttr::Long => {
                let cased = self.cased_name.clone();
                self.push_str_method("long", cased.as_str());
                Ok(())
            },
            StructOptAttr::Subcommand => self.set_kind(Kind::Subcommand(Ty::Other)),
            StructOptAttr::Flatten => self.set_kind(Kind::FlattenStruct),
            StructOptAttr::Skip(e) => {
                let k = match e {
                    None => Kind::Skip(None),
                    Some(x) => Kind::Skip(Some(x.cloned())),
                };
                self.set_kind(k)
            },
            StructOptAttr::NoVersion => {
                self.no_version = true;
                Ok(())
            },
            StructOptAttr::About(lit) => {
                assert("about"@ != "author"@) by {
                    reveal_strlit("about");
                    reveal_strlit("author");
                    assert("about"@.len() != "author"@.len());
                }
                match Method::from_lit_or_env("about", lit, &meta.description) {
                    Some(m) => {
                        self.about = Some(m);
                        Ok(())
                    },
                    None => Err(GenError::MissingAbout),
                }
            },
            StructOptAttr::Author(lit) => {
                match Method::from_lit_or_env("author", lit, &meta.authors) {
                    Some(m) => {
                        self.author = Some(m);
                        Ok(())
                    },
                    None => Err(GenError::MissingAuthor),
                }
            },
            StructOptAttr::Version(v) => {
                self.version = Some(Method::with_str("version", v.as_str()));
                Ok(())
            },
            StructOptAttr::NameLitStr(n, l) => {
                self.push_str_method(n.as_str(), l.as_str());
                Ok(())
            },
            StructOptAttr::DefaultValue(Some(l)) => {
                self.push_str_method("default_value", l.as_str());
                Ok(())
            },
            StructOptAttr::NameExpr(n, e) => {
                let args = vec![e.cloned()];
                let m = Method { name: n.clone(), args };
                assert(m@.args =~= seq![e@]);
                self.push_method(m);
                Ok(())
            },
            StructOptAttr::MethodCall(n, args) => {
                let mut m = Method { name: n.clone(), args: Vec::new() };
                let mut i: usize = 0;
                while i < args.len()
                    invariant
                        i <= args@.len(),
                        m.name@ == n@,
                        m.args@.len() == i,
                        forall|k: int| 0 <= k < i ==> #[trigger] m.args@[k]@ == args@[k]@,
                    decreases args@.len() - i,
                {
                    m.args.push(args[i].cloned());
                    i = i + 1;
                }
                assert(m@.args =~= args@.map_values(|e: Expr| e@));
                self.push_method(m);
                Ok(())
            },
            StructOptAttr::RenameAll(l) => {
                let c = match CasingStyle::from_lit(l.as_str()) {
                    Ok(c) => c,
                    Err(e) => {
                        return Err(e);
                    },
                };
                self.casing = c;
                self.cased_name = c.translate(self.name.as_str());
                Ok(())
            },
            StructOptAttr::Parse(spec) => {
                let p = match Parser::from_spec(spec) {
                    Ok(p) => p,
                    Err(e) => {
                        return Err(e);
                    },
                };
                self.has_custom_parser = true;
                self.parser = p;
                Ok(())
            },
            _ => Err(GenError::UnsupportedDirective),
        }
    }

    /// Applies the directives in order; the first refusal stops.
    pub fn push_attrs(&mut self, ds: &Vec<StructOptAttr>, meta: &PackageMeta) -> (r: Result<
        (),
        GenError,
    >)
        ensures
            match apply_attrs(old(self)@, ds@, *meta) {
                Ok(a) => r is Ok && final(self)@ == a,
                Err(e) => r == Err::<(), GenError>(e),
            },
            old(self)@.wf() && r is Ok ==> final(self)@.wf(),
    {
        proof {
            if self@.wf() {
                lemma_apply_attrs_wf(self@, ds@, *meta);
            }
        }
        let mut i: usize = 0;
        while i < ds.len()
            invariant
                i <= ds@.len(),
                apply_attrs(old(self)@, ds@.subrange(0, i as int), *meta) == Ok::<AttrsV, GenError>(
                    self@,
                ),
            decreases ds@.len() - i,
        {
            let ghost before = self@;
            let r = self.push_attr(&ds[i], meta);
            assert(ds@.subrange(0, i + 1).drop_last() == ds@.subrange(0, i as int));
            match r {
                Ok(()) => {},
                Err(e) => {
                    proof {
                        lemma_apply_attrs_stops(old(self)@, ds@, i as int, *meta);
                    }
                    return Err(e);
                },
            }
            i = i + 1;
        }
        assert(ds@.subrange(0, ds@.len() as int) == ds@);
        Ok(())
    }

    /// Appends the registrations of the documentation lines `docs` under the
    /// base name `name`.
    pub fn push_doc_comment(&mut self, docs: &Vec<String>, name: &str)
        ensures
            final(self)@ == with_doc(old(self)@, doc_methods(strings_view(docs@), name@)),
    {
        let pairs = extract_doc(docs, name);
        let ghost ps = doc_methods(strings_view(docs@), name@);
        let mut i: usize = 0;
        while i < pairs.len()
            invariant
                i <= pairs@.len(),
                pairs_view(pairs@) == ps,
                self@ == with_doc(old(self)@, ps.subrange(0, i as int)),
            decreases pairs@.len() - i,
        {
            let m = Method::with_str(pairs[i].0.as_str(), pairs[i].1.as_str());
            self.push_method(m);
            assert(ps.subrange(0, i + 1).map_values(
                |p: (Seq<char>, Seq<char>)| str_method(p.0, p.1),
            ) =~= ps.subrange(0, i as int).map_values(
                |p: (Seq<char>, Seq<char>)| str_method(p.0, p.1),
            ).push(str_method(ps[i as int].0, ps[i as int].1)));
            assert(self@.methods =~= with_doc(old(self)@, ps.subrange(0, i + 1)).methods);
            i = i + 1;
        }
        assert(ps.subrange(0, pairs@.len() as int) == ps);
    }

    /// Resolves the attributes of a declaration or variant named `name`:
    /// directives, then documentation under `about`; field-only directives
    /// are refused.
    pub fn from_struct(
        docs: &Vec<String>,
        ds: &Vec<StructOptAttr>,
        name: &str,
        casing: CasingStyle,
        meta: &PackageMeta,
    ) -> (r: Result<Attrs, GenError>)
        ensures
            result_view(r) == struct_attrs(strings_view(docs@), ds@, name@, casing, *meta),
            r is Ok ==> r->Ok_0@.wf(),
    {
        proof {
            lemma_apply_attrs_wf(initial_attrs(name@, casing), ds@, *meta);
        }
        let mut res = Attrs::new(name, casing);
        if let Err(e) = res.push_attrs(ds, meta) {
            return Err(e);
        }
        res.push_doc_comment(docs, "about");
        if res.has_custom_parser {
            return Err(GenError::ParseOnTopLevel);
        }
        match res.kind {
            Kind::Subcommand(_) => Err(GenError::SubcommandOnTopLevel),
            Kind::FlattenStruct => Err(GenError::FlattenOnTopLevel),
            Kind::Skip(_) => Err(GenError::SkipOnTopLevel),
            Kind::Arg(_) => Ok(res),
        }
    }

    /// Resolves the attributes of a field named `ident` of type `ty`:
    /// documentation under `help`, then directives, then the checks of its
    /// role against its type.
    pub fn from_field(
        ident: &str,
        ty: &FieldType,
        docs: &Vec<String>,
        ds: &Vec<StructOptAttr>,
        casing: CasingStyle,
        meta: &PackageMeta,
    ) -> (r: Result<Attrs, GenError>)
        ensures
            result_view(r) == field_attrs(ident@, *ty, strings_view(docs@), ds@, casing, *meta),
            r is Ok ==> r->Ok_0@.wf(),
    {
        proof {
            lemma_apply_attrs_wf(
                with_doc(initial_attrs(ident@, casing), doc_methods(strings_view(docs@), "help"@)),
                ds@,
                *meta,
            );
        }
        let mut res = Attrs::new(ident, casing);
        res.push_doc_comment(docs, "help");
        if let Err(e) = res.push_attrs(ds, meta) {
            return Err(e);
        }
        match res.kind {
            Kind::FlattenStruct => {
                if res.has_custom_parser {
                    return Err(GenError::ParseOnFlatten);
                }
                if res.methods.len() > 0 {
                    return Err(GenError::MethodsOnFlatten);
                }
                Ok(res)
            },
            Kind::Subcommand(_) => {
                if res.has_custom_parser {
                    return Err(GenError::ParseOnSubcommand);
                }
                if res.find_method_other_than("help", "help").is_some() {
                    return Err(GenError::MethodOnSubcommand);
                }
                let t = ty_from_field(ty);
                match t {
                    Ty::OptionOption => Err(GenError::OptionOptionSubcommand),
                    Ty::OptionVec => Err(GenError::OptionVecSubcommand),
                    _ => {
                        res.kind = Kind::Subcommand(t);
                        Ok(res)
                    },
                }
            },
            Kind::Skip(_) => {
                if res.find_method_other_than("help", "long_help").is_some() {
                    return Err(GenError::MethodOnSkip);
                }
                Ok(res)
            },
            Kind::Arg(_) => {
                let mut t = ty_from_field(ty);
                if res.has_custom_parser {
                    match t {
                        Ty::Option | Ty::Vec => {},
                        _ => {
                            t = Ty::Other;
                        },
                    }
                }
                match t {
                    Ty::Bool => {
                        if res.has_method("default_value") {
                            return Err(GenError::DefaultValueForBool);
                        }
                        if res.has_method("required") {
                            return Err(GenError::RequiredForBool);
                        }
                    },
                    Ty::Option => {
                        if res.has_method("default_value") {
                            return Err(GenError::DefaultValueForOption);
                        }
                        if res.has_method("required") {
                            return Err(GenError::RequiredForOption);
                        }
                    },
                    Ty::OptionOption => {
                        if !(res.has_method("long") || res.has_method("short")) {
                            return Err(GenError::OptionOptionPositional);
                        }
                    },
                    Ty::OptionVec => {
                        if !(res.has_method("long") || res.has_method("short")) {
                            return Err(GenError::OptionVecPositional);
                        }
                    },
                    _ => {},
                }
                res.kind = Kind::Arg(t);
                Ok(res)
            },
        }
    }

    /// The position of the first call whose name is neither `a` nor `b`.
    fn find_method_other_than(&self, a: &str, b: &str) -> (r: Option<usize>)
        ensures
            match r {
                Some(i) => i < self@.methods.len() && self@.methods[i as int].name != a@
                    && self@.methods[i as int].name != b@,
                None => forall|i: int|
                    0 <= i < self@.methods.len() ==> #[trigger] self@.methods[i].name == a@
                        || self@.methods[i].name == b@,
            },
    {
        let mut i: usize = 0;
        while i < self.methods.len()
            invariant
                i <= self.methods@.len(),
                forall|k: int|
                    0 <= k < i ==> #[trigger] self@.methods[k].name == a@ || self@.methods[k].name
                        == b@,
            decreases self.methods@.len() - i,
        {
            let n = self.methods[i].name.as_str();
            assert(self@.methods[i as int] == self.methods@[i as int]@);
            if !str_eq(n, a) && !str_eq(n, b) {
                return Some(i);
            }
            i = i + 1;
        }
        None
    }

    /// Whether a call named `name` was recorded.
    pub fn has_method(&self, name: &str) -> (r: bool)
        ensures
            r == has_method_spec(self@, name@),
    {
        self.find_method(name).is_some()
    }

    /// The first call named `name`.
    pub fn find_method(&self, name: &str) -> (r: Option<&Method>)
        ensures
            match r {
                Some(m) => m@.name == name@ && exists|i: int|
                    0 <= i < self@.methods.len() && self@.methods[i] == m@ && forall|k: int|
                        0 <= k < i ==> #[trigger] self@.methods[k].name != name@,
                None => !has_method_spec(self@, name@),
            },
    {
        let mut i: usize = 0;
        while i < self.methods.len()
            invariant
                i <= self.methods@.len(),
                forall|k: int| 0 <= k < i ==> #[trigger] self@.methods[k].name != name@,
            decreases self.methods@.len() - i,
        {
            assert(self@.methods[i as int] == self.methods@[i as int]@);
            if str_eq(self.methods[i].name.as_str(), name) {
                return Some(&self.methods[i]);
            }
            i = i + 1;
        }
        None
    }

    /// The calls of a declaration, in order: the recorded calls, then author,
    /// about and version. The version is the one given, else the package's
    /// where `no_version` is not set; `no_version` with a version is refused.
    pub fn top_level_methods(&self, meta: &PackageMeta) -> (r: Result<Vec<Method>, GenError>)
        ensures
            match r {
                Ok(v) => !(self@.no_version && self@.version is Some) && methods_view(v@)
                    == top_level_spec(self@, *meta),
                Err(e) => self@.no_version && self@.version is Some && e
                    == GenError::VersionAndNoVersion,
            },
    {
        if self.no_version && self.version.is_some() {
            return Err(GenError::VersionAndNoVersion);
        }
        let mut out = clone_methods(&self.methods);
        let ghost base = methods_view(out@);
        if let Some(m) = &self.author {
            out.push(m.cloned());
        }
        if let Some(m) = &self.about {
            out.push(m.cloned());
        }
        let ghost with_ab = methods_view(out@);
        match &self.version {
            Some(m) => out.push(m.cloned()),
            None => {
                if !self.no_version {
                    if let Some(v) = &meta.version {
                        out.push(Method::with_str("version", v.as_str()));
                    }
                }
            },
        }
        assert(methods_view(out@) =~= top_level_spec(self@, *meta));
        Ok(out)
    }

    /// The calls recorded for a field, in order.
    pub fn field_methods(&self) -> (r: Vec<Method>)
        ensures
            methods_view(r@) == self@.methods,
    {
        clone_methods(&self.methods)
    }

    /// The external name: the casing style applied to the current name.
    pub fn cased_name(&self) -> (r: String)
        ensures
            r@ == self@.cased_name,
    {
        self.cased_name.clone()
    }

    /// The logical name.
    pub fn name(&self) -> (r: String)
        ensures
            r@ == self@.name,
    {
        self.name.clone()
    }

    /// The conversion of the field's input.
    pub fn parser(&self) -> (r: &Parser)
        ensures
            r@ == self@.parser,
    {
        &self.parser
    }

    /// The role.
    pub fn kind(&self) -> (r: Kind)
        ensures
            r@ == self@.kind,
    {
        self.kind.cloned()
    }

    /// The casing style, which nested fields and variants inherit.
    pub fn casing(&self) -> (r: CasingStyle)
        ensures
            r == self@.casing,
    {
        self.casing
    }

    /// Whether a custom conversion was given.
    pub fn has_custom_parser(&self) -> (r: bool)
        ensures
            r == self@.has_custom_parser,
    {
        self.has_custom_parser
    }
}

/// The optional call as a sequence of none or one.
pub open spec fn opt_seq(o: Option<MethodV>) -> Seq<MethodV> {
    match o {
        Some(m) => seq![m],
        None => Seq::empty(),
    }
}

/// The calls of a declaration: recorded calls, author, about, version.
pub open spec fn top_level_spec(a: AttrsV, meta: PackageMeta) -> Seq<MethodV> {
    a.methods + opt_seq(a.author) + opt_seq(a.about) + match a.version {
        Some(m) => seq![m],
        None => if a.no_version {
            Seq::empty()
        } else {
            match meta.version {
                Some(v) => seq![str_method("version"@, v@)],
                None => Seq::empty(),
            }
        },
    }
}

/// Every directive keeps the cased name in step with the name and casing.
pub proof fn lemma_apply_attr_wf(a: AttrsV, d: StructOptAttr, meta: PackageMeta)
    requires
        a.wf(),
    ensures
        apply_attr(a, d, meta) is Ok ==> apply_attr(a, d, meta)->Ok_0.wf(),
{
}

/// A sequence of directives keeps the cased name in step with the name and
/// casing.
pub proof fn lemma_apply_attrs_wf(a: AttrsV, ds: Seq<StructOptAttr>, meta: PackageMeta)
    requires
        a.wf(),
    ensures
        apply_attrs(a, ds, meta) is Ok ==> apply_attrs(a, ds, meta)->Ok_0.wf(),
    decreases ds.len(),
{
    if ds.len() > 0 {
        lemma_apply_attrs_wf(a, ds.drop_last(), meta);
        if apply_attrs(a, ds.drop_last(), meta) is Ok {
            lemma_apply_attr_wf(apply_attrs(a, ds.drop_last(), meta)->Ok_0, ds.last(), meta);
        }
    }
}

/// Once a directive is refused, the whole sequence is refused with its error.
proof fn lemma_apply_attrs_stops(a: AttrsV, ds: Seq<StructOptAttr>, i: int, meta: PackageMeta)
    requires
        0 <= i < ds.len(),
        apply_attrs(a, ds.subrange(0, i), meta) is Ok,
        apply_attr(apply_attrs(a, ds.subrange(0, i), meta)->Ok_0, ds[i], meta) is Err,
    ensures
        apply_attrs(a, ds, meta) == apply_attr(
            apply_attrs(a, ds.subrange(0, i), meta)->Ok_0,
            ds[i],
            meta,
        ),
    decreases ds.len() - i,
{
    if i == ds.len() - 1 {
        assert(ds.drop_last() == ds.subrange(0, i));
    } else {
        assert(ds.drop_last().subrange(0, i) == ds.subrange(0, i));
        assert(ds.drop_last()[i] == ds[i]);
        lemma_apply_attrs_stops(a, ds.drop_last(), i, meta);
    }
}

} // verus!
