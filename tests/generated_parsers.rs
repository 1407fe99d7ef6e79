//! Parsers generated from declarations, run through clap.

use std::num::ParseIntError;

use clap::{App, AppSettings, Arg, ArgMatches, SubCommand};
use structopt_derive::attrs::{Method, PackageMeta};
use structopt_derive::construct::{construct, ArgMatch, FieldPlan, FieldValue, Matches, ValueSource};
use structopt_derive::decl::{Data, Declaration, Field, Variant, VariantFields};
use structopt_derive::derive::{from_subcommand, impl_structopt, Generated, VariantBody, VariantCtor};
use structopt_derive::directive::{parse_structopt_attributes, AttrInput, CallArg, Expr};
use structopt_derive::gen::{AugStep, Validator};
use structopt_derive::ty::{FieldType, GenericArg};

// ---- declarations -------------------------------------------------------

fn ty(name: &str) -> FieldType {
    FieldType::Path { ident: name.to_string(), args: vec![] }
}

fn wrap(name: &str, inner: FieldType) -> FieldType {
    FieldType::Path { ident: name.to_string(), args: vec![GenericArg::Type(inner)] }
}

fn word(n: &str) -> AttrInput {
    AttrInput::Word(n.to_string())
}

fn lit(n: &str, v: &str) -> AttrInput {
    AttrInput::Assign(n.to_string(), Expr::Str(v.to_string()))
}

fn call(n: &str, args: Vec<Expr>) -> AttrInput {
    AttrInput::Call(n.to_string(), args.into_iter().map(CallArg::Value).collect())
}

fn parse_kind(kind: &str) -> AttrInput {
    AttrInput::Call("parse".to_string(), vec![CallArg::Value(Expr::Path(kind.to_string()))])
}

fn parse_with(kind: &str, func: &str) -> AttrInput {
    AttrInput::Call(
        "parse".to_string(),
        vec![CallArg::Assign {
            key: kind.to_string(),
            value: Expr::Path(func.to_string()),
            text: format!("{} = {}", kind, func),
        }],
    )
}

fn s(v: &str) -> Expr {
    Expr::Str(v.to_string())
}

fn read(attrs: Vec<AttrInput>) -> Vec<structopt_derive::directive::StructOptAttr> {
    parse_structopt_attributes(&attrs).expect("directives read")
}

fn field(name: &str, t: FieldType, attrs: Vec<AttrInput>) -> Field {
    Field { ident: Some(name.to_string()), ty: t, doc: vec![], attrs: read(attrs) }
}

fn documented(mut f: Field, lines: &[&str]) -> Field {
    f.doc = lines.iter().map(|l| l.to_string()).collect();
    f
}

fn record(name: &str, attrs: Vec<AttrInput>, fields: Vec<Field>) -> Declaration {
    Declaration { ident: name.to_string(), doc: vec![], attrs: read(attrs), data: Data::Struct(fields) }
}

fn variant(name: &str, attrs: Vec<AttrInput>, fields: VariantFields) -> Variant {
    Variant { ident: name.to_string(), doc: vec![], attrs: read(attrs), fields }
}

fn union(name: &str, variants: Vec<Variant>) -> Declaration {
    Declaration { ident: name.to_string(), doc: vec![], attrs: vec![], data: Data::Enum(variants) }
}

fn meta() -> PackageMeta {
    PackageMeta { name: Some("test".to_string()), version: None, authors: None, description: None }
}

// ---- the harness --------------------------------------------------------

fn leak(s: &str) -> &'static str {
    Box::leak(s.to_string().into_boxed_str())
}

fn parse_hex(input: &str) -> Result<u64, ParseIntError> {
    u64::from_str_radix(input, 16)
}

/// The type that a conversion produces: `Option` and `Vec` layers removed.
fn convert_ident(t: &FieldType) -> String {
    match t {
        FieldType::Path { ident, args } => {
            if (ident == "Option" || ident == "Vec") && args.len() == 1 {
                if let GenericArg::Type(inner) = &args[0] {
                    return convert_ident(inner);
                }
            }
            ident.clone()
        }
        FieldType::NonPath => String::new(),
    }
}

fn validate_str(func: &str, target: &str, v: &str) -> Result<(), String> {
    match func {
        "::std::str::FromStr::from_str" => match target {
            "i32" => v.parse::<i32>().map(|_| ()).map_err(|e| e.to_string()),
            "u32" => v.parse::<u32>().map(|_| ()).map_err(|e| e.to_string()),
            "u64" => v.parse::<u64>().map(|_| ()).map_err(|e| e.to_string()),
            _ => Ok(()),
        },
        "parse_hex" => parse_hex(v).map(|_| ()).map_err(|e| e.to_string()),
        _ => Ok(()),
    }
}

fn expr_text(e: &Expr) -> &'static str {
    match e {
        Expr::Str(v) | Expr::Path(v) | Expr::Other(v) => leak(v),
        Expr::Bool(b) => {
            if *b {
                "true"
            } else {
                "false"
            }
        }
    }
}

fn expr_bool(e: &Expr) -> bool {
    match e {
        Expr::Bool(b) => *b,
        other => expr_text(other) == "true",
    }
}

fn apply_arg_method(a: Arg<'static, 'static>, m: &Method) -> Arg<'static, 'static> {
    match m.name.as_str() {
        "short" => a.short(expr_text(&m.args[0])),
        "long" => a.long(expr_text(&m.args[0])),
        "help" => a.help(expr_text(&m.args[0])),
        "long_help" => a.long_help(expr_text(&m.args[0])),
        "default_value" => a.default_value(expr_text(&m.args[0])),
        "required" => a.required(expr_bool(&m.args[0])),
        "value_name" => a.value_name(expr_text(&m.args[0])),
        "alias" => a.alias(expr_text(&m.args[0])),
        "require_equals" => a.require_equals(expr_bool(&m.args[0])),
        "next_line_help" => a.next_line_help(expr_bool(&m.args[0])),
        "display_order" => a.display_order(expr_text(&m.args[0]).parse().unwrap()),
        "requires_if" => a.requires_if(expr_text(&m.args[0]), expr_text(&m.args[1])),
        other => panic!("no such argument method in this harness: {}", other),
    }
}

/// The value of an expression written in a directive, for the few
/// expressions that the declarations below use.
fn eval_text(e: &Expr) -> &'static str {
    match expr_text(e) {
        "my_version()" => "MY_VERSION",
        other => other,
    }
}

fn apply_app_method(app: App<'static, 'static>, m: &Method) -> App<'static, 'static> {
    match m.name.as_str() {
        "version" => app.version(eval_text(&m.args[0])),
        "about" => app.about(expr_text(&m.args[0])),
        "long_about" => app.long_about(expr_text(&m.args[0])),
        "author" => app.author(expr_text(&m.args[0])),
        other => panic!("no such application method in this harness: {}", other),
    }
}

#[derive(Debug)]
enum Node {
    Val(FieldValue),
    Sub(Option<(String, Vec<Node>)>),
    Flat(Vec<Node>),
}

struct Reg {
    decls: Vec<Declaration>,
}

impl Reg {
    fn new(decls: Vec<Declaration>) -> Reg {
        Reg { decls }
    }

    fn decl(&self, name: &str) -> &Declaration {
        self.decls.iter().find(|d| d.ident == name).expect("declared")
    }

    fn gen(&self, name: &str) -> Generated {
        impl_structopt(self.decl(name), &meta()).expect("generated")
    }

    fn augment_fields(
        &self,
        mut app: App<'static, 'static>,
        fields: &[Field],
        steps: &[AugStep],
        plans: &[FieldPlan],
    ) -> App<'static, 'static> {
        for ((f, step), plan) in fields.iter().zip(steps).zip(plans) {
            match step {
                AugStep::Arg(spec) => {
                    let md = spec.modifiers;
                    let mut a = Arg::with_name(leak(&spec.name))
                        .takes_value(md.takes_value)
                        .multiple(md.multiple);
                    if let Some(n) = md.min_values {
                        a = a.min_values(n);
                    }
                    if let Some(n) = md.max_values {
                        a = a.max_values(n);
                    }
                    if let Some(r) = md.required {
                        a = a.required(r);
                    }
                    let func = match plan {
                        FieldPlan::Arg { func, .. } => expr_text(func),
                        _ => "",
                    };
                    let target = convert_ident(&f.ty);
                    match md.validator {
                        Validator::Str => {
                            a = a.validator(move |v: String| validate_str(func, &target, &v));
                        }
                        Validator::OsStr => {
                            a = a.validator_os(|_| Ok(()));
                        }
                        Validator::NoValidator => {}
                    }
                    for m in &spec.methods {
                        a = apply_arg_method(a, m);
                    }
                    app = app.arg(a);
                }
                AugStep::Flatten(t) => {
                    app = self.augment_type(app, t);
                    if self.gen(t).is_subcommand() {
                        app = app.setting(AppSettings::SubcommandRequiredElseHelp);
                    }
                }
                AugStep::Subcommand { ty, required } => {
                    app = self.augment_type(app, ty);
                    if *required {
                        app = app.setting(AppSettings::SubcommandRequiredElseHelp);
                    }
                }
                AugStep::Skip => {}
            }
        }
        app
    }

    fn augment_type(&self, mut app: App<'static, 'static>, name: &str) -> App<'static, 'static> {
        match self.gen(name) {
            Generated::Struct { augmentation, constructor, .. } => match &self.decl(name).data {
                Data::Struct(fields) => self.augment_fields(app, fields, &augmentation, &constructor),
                _ => unreachable!(),
            },
            Generated::Enum { subcommands, .. } => {
                let variants = match &self.decl(name).data {
                    Data::Enum(vs) => vs,
                    _ => unreachable!(),
                };
                for (sc, v) in subcommands.iter().zip(variants) {
                    let mut sub = SubCommand::with_name(leak(&sc.name));
                    sub = match (&sc.body, &v.fields) {
                        (VariantBody::Fields(steps), VariantFields::Named(fields)) => {
                            let plans = match self.gen_variant_plans(name, &v.ident) {
                                Some(p) => p,
                                None => vec![],
                            };
                            self.augment_fields(sub, fields, steps, &plans)
                        }
                        (VariantBody::Delegate(t), _) => {
                            let s2 = self.augment_type(sub, t);
                            if self.gen(t).is_subcommand() {
                                s2.setting(AppSettings::SubcommandRequiredElseHelp)
                            } else {
                                s2
                            }
                        }
                        _ => sub,
                    };
                    for m in &sc.methods {
                        sub = apply_app_method(sub, m);
                    }
                    app = app.subcommand(sub);
                }
                app
            }
        }
    }

    fn gen_variant_plans(&self, union_name: &str, variant: &str) -> Option<Vec<FieldPlan>> {
        match self.gen(union_name) {
            Generated::Enum { dispatch, .. } => dispatch.into_iter().find(|e| e.variant == variant).and_then(
                |e| match e.ctor {
                    VariantCtor::Fields(p) => Some(p),
                    _ => None,
                },
            ),
            _ => None,
        }
    }

    fn app(&self, name: &str) -> App<'static, 'static> {
        let gen = self.gen(name);
        let spec = match &gen {
            Generated::Struct { app, .. } | Generated::Enum { app, .. } => app.clone(),
        };
        let mut app = App::new(leak(&spec.name));
        for m in &spec.methods {
            app = apply_app_method(app, m);
        }
        if spec.subcommand_required {
            app = app.setting(AppSettings::SubcommandRequiredElseHelp);
        }
        self.augment_type(app, name)
    }

    fn matches_model(plans: &[FieldPlan], m: &ArgMatches) -> Matches {
        let mut args = vec![];
        for p in plans {
            if let FieldPlan::Arg { arg, source, .. } = p {
                if m.is_present(arg) {
                    let values: Vec<String> = match source {
                        ValueSource::OsStr => m
                            .values_of_os(arg)
                            .map(|v| v.map(|x| x.to_string_lossy().into_owned()).collect())
                            .unwrap_or_default(),
                        _ => m.values_of(arg).map(|v| v.map(String::from).collect()).unwrap_or_default(),
                    };
                    args.push(ArgMatch { name: arg.clone(), occurrences: m.occurrences_of(arg), values });
                }
            }
        }
        Matches { args, subcommand: m.subcommand_name().map(String::from) }
    }

    fn construct_plans(&self, plans: &[FieldPlan], m: &ArgMatches) -> Option<Vec<Node>> {
        let model = Reg::matches_model(plans, m);
        let values = construct(&plans.to_vec(), &model).ok()?;
        let mut out = vec![];
        for (p, v) in plans.iter().zip(values) {
            out.push(match p {
                FieldPlan::Subcommand { ty, .. } => Node::Sub(self.dispatch(ty, m)),
                FieldPlan::Flatten { ty } => Node::Flat(self.construct_type(ty, m)?),
                _ => Node::Val(v),
            });
        }
        Some(out)
    }

    fn dispatch(&self, name: &str, m: &ArgMatches) -> Option<(String, Vec<Node>)> {
        let table = match self.gen(name) {
            Generated::Enum { dispatch, .. } => dispatch,
            _ => return None,
        };
        let (sub_name, sub) = m.subcommand();
        let idx = from_subcommand(&table, sub_name)?;
        let sub = sub?;
        let entry = &table[idx];
        let nodes = match &entry.ctor {
            VariantCtor::Fields(plans) => self.construct_plans(plans, sub)?,
            VariantCtor::Unit => vec![],
            VariantCtor::Delegate(t) => vec![Node::Flat(self.construct_type(t, sub)?)],
        };
        Some((entry.variant.clone(), nodes))
    }

    fn construct_type(&self, name: &str, m: &ArgMatches) -> Option<Vec<Node>> {
        match self.gen(name) {
            Generated::Struct { constructor, .. } => self.construct_plans(&constructor, m),
            Generated::Enum { .. } => self.dispatch(name, m).map(|x| vec![Node::Sub(Some(x))]),
        }
    }

    /// Matches `args` against the generated parser of `name`.
    fn matches(&self, name: &str, args: &[&str]) -> Result<ArgMatches<'static>, clap::Error> {
        self.app(name).get_matches_from_safe(args.iter().map(|a| a.to_string()))
    }

    /// Matches `args` and reads the fields back; `None` where the matcher
    /// refuses the input.
    fn run(&self, name: &str, args: &[&str]) -> Option<Vec<Node>> {
        let m = self.matches(name, args).ok()?;
        self.construct_type(name, &m)
    }

    fn help(&self, name: &str) -> String {
        let mut out = Vec::new();
        self.app(name).write_help(&mut out).unwrap();
        String::from_utf8(out).unwrap()
    }

    fn long_help(&self, name: &str) -> String {
        let mut out = Vec::new();
        self.app(name).write_long_help(&mut out).unwrap();
        String::from_utf8(out).unwrap()
    }

    fn subcommand_long_help(&self, name: &str, sub: &str) -> String {
        match self.matches(name, &["test", sub, "--help"]) {
            Err(e) => e.message,
            Ok(_) => panic!("help was not shown"),
        }
    }

    fn run_ok(&self, name: &str, args: &[&str]) -> Vec<Node> {
        self.run(name, args).expect("accepted")
    }
}

// ---- reading nodes back -------------------------------------------------

fn val(n: &Node) -> &FieldValue {
    match n {
        Node::Val(v) => v,
        other => panic!("not a value: {:?}", other),
    }
}

fn flag(n: &Node) -> bool {
    match val(n) {
        FieldValue::Flag(b) => *b,
        other => panic!("not a flag: {:?}", other),
    }
}

fn count(n: &Node) -> u64 {
    match val(n) {
        FieldValue::Count(c) => *c,
        other => panic!("not a count: {:?}", other),
    }
}

fn one(n: &Node) -> String {
    match val(n) {
        FieldValue::One(v) => v.clone(),
        other => panic!("not a single value: {:?}", other),
    }
}

fn num(n: &Node) -> i32 {
    one(n).parse().unwrap()
}

fn maybe_int(n: &Node) -> Option<i32> {
    match val(n) {
        FieldValue::Maybe(v) => v.as_ref().map(|x| x.parse().unwrap()),
        other => panic!("not an optional value: {:?}", other),
    }
}

fn many(n: &Node) -> Vec<String> {
    match val(n) {
        FieldValue::Many(v) => v.clone(),
        other => panic!("not a sequence: {:?}", other),
    }
}

fn many_int(n: &Node) -> Vec<i32> {
    many(n).iter().map(|x| x.parse().unwrap()).collect()
}

fn sub(n: &Node) -> Option<(&str, &Vec<Node>)> {
    match n {
        Node::Sub(Some((v, nodes))) => Some((v.as_str(), nodes)),
        Node::Sub(None) => None,
        other => panic!("not a subcommand: {:?}", other),
    }
}

// ---- subcommands --------------------------------------------------------

fn nested_reg() -> Reg {
    let flags = |cmd_ty: FieldType| {
        vec![
            field("force", ty("bool"), vec![lit("short", "f"), lit("long", "force")]),
            field(
                "verbose",
                ty("u64"),
                vec![lit("short", "v"), lit("long", "verbose"), parse_kind("from_occurrences")],
            ),
            field("cmd", cmd_ty, vec![word("subcommand")]),
        ]
    };
    let sub = union(
        "Sub",
        vec![
            variant("Fetch", vec![lit("name", "fetch")], VariantFields::Named(vec![])),
            variant("Add", vec![lit("name", "add")], VariantFields::Named(vec![])),
        ],
    );
    let opt3 = record(
        "Opt3",
        vec![],
        vec![
            field("all", ty("bool"), vec![lit("short", "a"), lit("long", "all")]),
            field("cmd", ty("Sub2"), vec![word("subcommand")]),
        ],
    );
    let sub2 = union(
        "Sub2",
        vec![
            variant(
                "Foo",
                vec![lit("name", "foo")],
                VariantFields::Named(vec![
                    field("file", ty("String"), vec![]),
                    field("cmd", ty("Sub3"), vec![word("subcommand")]),
                ]),
            ),
            variant("Bar", vec![lit("name", "bar")], VariantFields::Named(vec![])),
        ],
    );
    let sub3 = union(
        "Sub3",
        vec![
            variant("Baz", vec![lit("name", "baz")], VariantFields::Named(vec![])),
            variant("Quux", vec![lit("name", "quux")], VariantFields::Named(vec![])),
        ],
    );
    Reg::new(vec![
        record("Opt", vec![], flags(ty("Sub"))),
        record("Opt2", vec![], flags(wrap("Option", ty("Sub")))),
        sub,
        opt3,
        sub2,
        sub3,
    ])
}

/// `(force, verbose, subcommand variant)` of `Opt` or `Opt2`.
fn opt_fields(nodes: &[Node]) -> (bool, u64, Option<String>) {
    (flag(&nodes[0]), count(&nodes[1]), sub(&nodes[2]).map(|(v, _)| v.to_string()))
}

#[test]
fn test_no_cmd() {
    let reg = nested_reg();
    let result = reg.matches("Opt", &["test"]);
    assert!(result.is_err());

    assert_eq!((false, 0, None), opt_fields(&reg.run_ok("Opt2", &["test"])));
}

#[test]
fn test_fetch() {
    let reg = nested_reg();
    assert_eq!((false, 3, Some("Fetch".to_string())), opt_fields(&reg.run_ok("Opt", &["test", "-vvv", "fetch"])));
    assert_eq!((true, 0, Some("Fetch".to_string())), opt_fields(&reg.run_ok("Opt", &["test", "--force", "fetch"])));
}

#[test]
fn test_add() {
    let reg = nested_reg();
    assert_eq!((false, 0, Some("Add".to_string())), opt_fields(&reg.run_ok("Opt", &["test", "add"])));
    assert_eq!((false, 2, Some("Add".to_string())), opt_fields(&reg.run_ok("Opt", &["test", "-vv", "add"])));
}

#[test]
fn test_badinput() {
    let reg = nested_reg();
    let result = reg.matches("Opt", &["test", "badcmd"]);
    assert!(result.is_err());
    let result = reg.matches("Opt", &["test", "add", "--verbose"]);
    assert!(result.is_err());
    let result = reg.matches("Opt", &["test", "--badopt", "add"]);
    assert!(result.is_err());
    let result = reg.matches("Opt", &["test", "add", "--badopt"]);
    assert!(result.is_err());
}

#[test]
fn test_subsubcommand() {
    let reg = nested_reg();
    let nodes = reg.run_ok("Opt3", &["test", "--all", "foo", "lib.rs", "quux"]);
    assert!(flag(&nodes[0]));
    let (variant, fields) = sub(&nodes[1]).unwrap();
    assert_eq!("Foo", variant);
    assert_eq!("lib.rs", one(&fields[0]));
    assert_eq!(Some("Quux"), sub(&fields[1]).map(|(v, _)| v));
}

fn sub_sub_reg() -> Reg {
    Reg::new(vec![
        union(
            "SubSubCmdWithOption",
            vec![
                variant(
                    "Remote",
                    vec![lit("name", "remote")],
                    VariantFields::Named(vec![field(
                        "cmd",
                        wrap("Option", ty("Remote")),
                        vec![word("subcommand")],
                    )]),
                ),
                variant(
                    "Stash",
                    vec![lit("name", "stash")],
                    VariantFields::Named(vec![field("cmd", ty("Stash"), vec![word("subcommand")])]),
                ),
            ],
        ),
        union(
            "Remote",
            vec![
                variant(
                    "Add",
                    vec![lit("name", "add")],
                    VariantFields::Named(vec![
                        field("name", ty("String"), vec![]),
                        field("url", ty("String"), vec![]),
                    ]),
                ),
                variant(
                    "Remove",
                    vec![lit("name", "remove")],
                    VariantFields::Named(vec![field("name", ty("String"), vec![])]),
                ),
            ],
        ),
        union(
            "Stash",
            vec![
                variant("Save", vec![lit("name", "save")], VariantFields::Unit),
                variant("Pop", vec![lit("name", "pop")], VariantFields::Unit),
            ],
        ),
    ])
}

/// A readable rendering of a run of `SubSubCmdWithOption`.
fn describe(nodes: &[Node]) -> String {
    let (v, fields) = sub(&nodes[0]).unwrap();
    let inner = match sub(&fields[0]) {
        None => "None".to_string(),
        Some((iv, ifields)) => {
            let vals: Vec<String> = ifields.iter().map(one).collect();
            format!("{}{:?}", iv, vals)
        }
    };
    format!("{}({})", v, inner)
}

#[test]
fn sub_sub_cmd_with_option() {
    let reg = sub_sub_reg();
    let make = |args: &[&str]| reg.run("SubSubCmdWithOption", args).map(|n| describe(&n));
    assert_eq!(Some("Remote(None)".to_string()), make(&["", "remote"]));
    assert_eq!(
        Some("Remote(Add[\"origin\", \"http\"])".to_string()),
        make(&["", "remote", "add", "origin", "http"])
    );
    assert_eq!(Some("Stash(Save[])".to_string()), make(&["", "stash", "save"]));
    assert_eq!(None, make(&["", "stash"]));
}

// ---- custom parsers -----------------------------------------------------

#[test]
fn test_parse_hex() {
    let reg = Reg::new(vec![record(
        "HexOpt",
        vec![],
        vec![field("number", ty("u64"), vec![lit("short", "n"), parse_with("try_from_str", "parse_hex")])],
    )]);
    let number = |args: &[&str]| parse_hex(&one(&reg.run_ok("HexOpt", args)[0])).unwrap();
    assert_eq!(5, number(&["test", "-n", "5"]));
    assert_eq!(0xabcdef, number(&["test", "-n", "abcdef"]));

    let err = reg.matches("HexOpt", &["test", "-n", "gg"]).unwrap_err();
    assert!(err.message.contains("invalid digit found in string"), "{}", err);
}

fn custom_parser_1(_: &str) -> &'static str {
    "A"
}
fn custom_parser_2(_: &str) -> Result<&'static str, u32> {
    Ok("B")
}
fn custom_parser_3<T: ?Sized>(_: &T) -> &'static str {
    "C"
}
fn custom_parser_4<T: ?Sized>(_: &T) -> Result<&'static str, String> {
    Ok("D")
}

#[test]
fn test_every_custom_parser() {
    let str_ref = FieldType::NonPath;
    let reg = Reg::new(vec![record(
        "NoOpOpt",
        vec![],
        vec![
            field("a", str_ref, vec![lit("short", "a"), parse_with("from_str", "custom_parser_1")]),
            field("b", FieldType::NonPath, vec![lit("short", "b"), parse_with("try_from_str", "custom_parser_2")]),
            field("c", FieldType::NonPath, vec![lit("short", "c"), parse_with("from_os_str", "custom_parser_3")]),
            field("d", FieldType::NonPath, vec![lit("short", "d"), parse_with("try_from_os_str", "custom_parser_4")]),
        ],
    )]);
    let nodes = reg.run_ok("NoOpOpt", &["test", "-a=?", "-b=?", "-c=?", "-d=?"]);
    let a = custom_parser_1(&one(&nodes[0]));
    let b = custom_parser_2(&one(&nodes[1])).unwrap();
    let c = custom_parser_3(one(&nodes[2]).as_str());
    let d = custom_parser_4(one(&nodes[3]).as_str()).unwrap();
    assert_eq!(("A", "B", "C", "D"), (a, b, c, d));
}

#[test]
fn test_path_opt_simple() {
    let path = || ty("PathBuf");
    let reg = Reg::new(vec![record(
        "PathOpt",
        vec![],
        vec![
            field("path", path(), vec![lit("short", "p"), lit("long", "path"), parse_kind("from_os_str")]),
            field(
                "default_path",
                path(),
                vec![lit("short", "d"), lit("default_value", "../"), parse_kind("from_os_str")],
            ),
            field("vector_path", wrap("Vec", path()), vec![lit("short", "v"), parse_kind("from_os_str")]),
            field("option_path_1", wrap("Option", path()), vec![lit("short", "o"), parse_kind("from_os_str")]),
            field("option_path_2", wrap("Option", path()), vec![lit("short", "q"), parse_kind("from_os_str")]),
        ],
    )]);
    let nodes = reg.run_ok(
        "PathOpt",
        &["test", "-p", "/usr/bin", "-v", "/a/b/c", "-v", "/d/e/f", "-v", "/g/h/i", "-q", "j.zip"],
    );
    assert_eq!("/usr/bin", one(&nodes[0]));
    assert_eq!("../", one(&nodes[1]));
    assert_eq!(vec!["/a/b/c", "/d/e/f", "/g/h/i"], many(&nodes[2]));
    assert_eq!(&FieldValue::Maybe(None), val(&nodes[3]));
    assert_eq!(&FieldValue::Maybe(Some("j.zip".to_string())), val(&nodes[4]));
}

// ---- raw methods --------------------------------------------------------

fn raw_reg() -> Reg {
    Reg::new(vec![record(
        "Opt",
        vec![],
        vec![
            field(
                "x",
                ty("i32"),
                vec![
                    lit("long", "x"),
                    call("display_order", vec![Expr::Other("2".to_string())]),
                    call("next_line_help", vec![Expr::Bool(true)]),
                    call("default_value", vec![s("0")]),
                    call("require_equals", vec![Expr::Bool(true)]),
                ],
            ),
            field(
                "level",
                ty("String"),
                vec![lit("short", "l"), lit("long", "level"), call("alias", vec![s("set-level")]), call("alias", vec![s("lvl")])],
            ),
            field("values", wrap("Vec", ty("i32")), vec![lit("long", "values")]),
            field("files", wrap("Vec", ty("String")), vec![lit("name", "FILE"), call("requires_if", vec![s("FILE"), s("values")])]),
        ],
    )])
}

/// `(x, level, values, files)` of the raw-methods record.
fn raw_fields(nodes: &[Node]) -> (i32, String, Vec<i32>, Vec<String>) {
    (num(&nodes[0]), one(&nodes[1]), many_int(&nodes[2]), many(&nodes[3]))
}

#[test]
fn test_raw_slice() {
    let reg = raw_reg();
    for args in [
        &["test", "-l", "1"][..],
        &["test", "--level", "1"][..],
        &["test", "--set-level", "1"][..],
        &["test", "--lvl", "1"][..],
    ] {
        assert_eq!((0, "1".to_string(), vec![], vec![]), raw_fields(&reg.run_ok("Opt", args)));
    }
}

#[test]
fn test_raw_multi_args() {
    let reg = raw_reg();
    assert_eq!(
        (0, "1".to_string(), vec![], vec!["file".to_string()]),
        raw_fields(&reg.run_ok("Opt", &["test", "-l", "1", "file"]))
    );
    assert_eq!(
        (0, "1".to_string(), vec![1], vec!["FILE".to_string()]),
        raw_fields(&reg.run_ok("Opt", &["test", "-l", "1", "--values", "1", "--", "FILE"]))
    );
}

#[test]
fn test_raw_multi_args_fail() {
    let reg = raw_reg();
    let result = reg.matches("Opt", &["test", "-l", "1", "--", "FILE"]);
    assert!(result.is_err());
}

#[test]
fn test_raw_bool() {
    let reg = raw_reg();
    assert_eq!((1, "1".to_string(), vec![], vec![]), raw_fields(&reg.run_ok("Opt", &["test", "-l", "1", "--x=1"])));
    let result = reg.matches("Opt", &["test", "-l", "1", "--x", "1"]);
    assert!(result.is_err());
}

// ---- positional arguments -----------------------------------------------

fn single(name: &str, t: FieldType, attrs: Vec<AttrInput>) -> Reg {
    Reg::new(vec![record("Opt", vec![], vec![field(name, t, attrs)])])
}

#[test]
fn required_argument() {
    let reg = single("arg", ty("i32"), vec![]);
    assert_eq!(42, num(&reg.run_ok("Opt", &["test", "42"])[0]));
    assert!(reg.matches("Opt", &["test"]).is_err());
    assert!(reg.matches("Opt", &["test", "42", "24"]).is_err());
}

#[test]
fn optional_argument() {
    let reg = single("arg", wrap("Option", ty("i32")), vec![]);
    assert_eq!(Some(42), maybe_int(&reg.run_ok("Opt", &["test", "42"])[0]));
    assert_eq!(None, maybe_int(&reg.run_ok("Opt", &["test"])[0]));
    assert!(reg.matches("Opt", &["test", "42", "24"]).is_err());
}

#[test]
fn argument_with_default() {
    let reg = single("arg", ty("i32"), vec![lit("default_value", "42")]);
    assert_eq!(24, num(&reg.run_ok("Opt", &["test", "24"])[0]));
    assert_eq!(42, num(&reg.run_ok("Opt", &["test"])[0]));
    assert!(reg.matches("Opt", &["test", "42", "24"]).is_err());
}

#[test]
fn argument_with_raw_default() {
    let reg = single("arg", ty("i32"), vec![call("default_value", vec![s("42")])]);
    assert_eq!(24, num(&reg.run_ok("Opt", &["test", "24"])[0]));
    assert_eq!(42, num(&reg.run_ok("Opt", &["test"])[0]));
    assert!(reg.matches("Opt", &["test", "42", "24"]).is_err());
}

#[test]
fn arguments() {
    let reg = single("arg", wrap("Vec", ty("i32")), vec![]);
    assert_eq!(vec![24], many_int(&reg.run_ok("Opt", &["test", "24"])[0]));
    assert_eq!(Vec::<i32>::new(), many_int(&reg.run_ok("Opt", &["test"])[0]));
    assert_eq!(vec![24, 42], many_int(&reg.run_ok("Opt", &["test", "24", "42"])[0]));
}

// ---- options ------------------------------------------------------------

#[test]
fn required_option() {
    let reg = single("arg", ty("i32"), vec![lit("short", "a"), lit("long", "arg")]);
    assert_eq!(42, num(&reg.run_ok("Opt", &["test", "-a42"])[0]));
    assert_eq!(42, num(&reg.run_ok("Opt", &["test", "-a", "42"])[0]));
    assert_eq!(42, num(&reg.run_ok("Opt", &["test", "--arg", "42"])[0]));
    assert!(reg.matches("Opt", &["test"]).is_err());
    assert!(reg.matches("Opt", &["test", "-a42", "-a24"]).is_err());
}

#[test]
fn optional_option() {
    let reg = single("arg", wrap("Option", ty("i32")), vec![lit("short", "a")]);
    assert_eq!(Some(42), maybe_int(&reg.run_ok("Opt", &["test", "-a42"])[0]));
    assert_eq!(None, maybe_int(&reg.run_ok("Opt", &["test"])[0]));
    assert!(reg.matches("Opt", &["test", "-a42", "-a24"]).is_err());
}

#[test]
fn option_with_default() {
    let reg = single("arg", ty("i32"), vec![lit("short", "a"), lit("default_value", "42")]);
    assert_eq!(24, num(&reg.run_ok("Opt", &["test", "-a24"])[0]));
    assert_eq!(42, num(&reg.run_ok("Opt", &["test"])[0]));
    assert!(reg.matches("Opt", &["test", "-a42", "-a24"]).is_err());
}

#[test]
fn option_with_raw_default() {
    let reg = single("arg", ty("i32"), vec![lit("short", "a"), call("default_value", vec![s("42")])]);
    assert_eq!(24, num(&reg.run_ok("Opt", &["test", "-a24"])[0]));
    assert_eq!(42, num(&reg.run_ok("Opt", &["test"])[0]));
    assert!(reg.matches("Opt", &["test", "-a42", "-a24"]).is_err());
}

#[test]
fn options() {
    let reg = single("arg", wrap("Vec", ty("i32")), vec![lit("short", "a"), lit("long", "arg")]);
    assert_eq!(vec![24], many_int(&reg.run_ok("Opt", &["test", "-a24"])[0]));
    assert_eq!(Vec::<i32>::new(), many_int(&reg.run_ok("Opt", &["test"])[0]));
    assert_eq!(vec![24, 42], many_int(&reg.run_ok("Opt", &["test", "-a24", "--arg", "42"])[0]));
}

#[test]
fn empy_default_value() {
    let reg = single("arg", ty("String"), vec![lit("short", "a"), lit("default_value", "")]);
    assert_eq!("", one(&reg.run_ok("Opt", &["test"])[0]));
    assert_eq!("foo", one(&reg.run_ok("Opt", &["test", "-afoo"])[0]));
}

#[test]
fn no_short_or_long() {
    let reg = Reg::new(vec![record(
        "Opt",
        vec![],
        vec![field("arg", ty("i32"), vec![word("long")]), field("other_arg", ty("i32"), vec![word("long")])],
    )]);
    let pair = |args: &[&str]| {
        let n = reg.run_ok("Opt", args);
        (num(&n[0]), num(&n[1]))
    };
    assert_eq!((42, 37), pair(&["test", "--arg", "42", "--other-arg", "37"]));
    assert_eq!((42, 37), pair(&["test", "--arg=42", "--other-arg", "37"]));
    assert!(reg.matches("Opt", &["test"]).is_err());
    assert!(reg.matches("Opt", &["test", "--arg=42", "--arg=24", "--other-arg", "37"]).is_err());
}

#[test]
fn explicit_short_long_no_rename() {
    let reg = single("foo", wrap("Vec", ty("String")), vec![lit("short", "."), lit("long", ".foo")]);
    assert_eq!(
        vec!["short".to_string(), "long".to_string()],
        many(&reg.run_ok("Opt", &["test", "-.", "short", "--.foo", "long"])[0])
    );
}

// ---- naming -------------------------------------------------------------

fn one_variant_enum(variant_name: &str) -> Reg {
    Reg::new(vec![union(
        "Opt",
        vec![variant(variant_name, vec![], VariantFields::Named(vec![field("foo", ty("u32"), vec![])]))],
    )])
}

#[test]
fn test_single_word_enum_variant_is_default_renamed_into_kebab_case() {
    let reg = one_variant_enum("Command");
    let nodes = reg.run_ok("Opt", &["test", "command", "0"]);
    let (v, fields) = sub(&nodes[0]).unwrap();
    assert_eq!(("Command", 0), (v, num(&fields[0])));
}

#[test]
fn test_multi_word_enum_variant_is_renamed() {
    let reg = one_variant_enum("FirstCommand");
    let nodes = reg.run_ok("Opt", &["test", "first-command", "0"]);
    let (v, fields) = sub(&nodes[0]).unwrap();
    assert_eq!(("FirstCommand", 0), (v, num(&fields[0])));
}

/// Whether the one flag of a record with `field` is set by `args`.
fn flag_set(name: &str, attrs: Vec<AttrInput>, args: &[&str]) -> bool {
    let reg = single(name, ty("bool"), attrs);
    flag(&reg.run_ok("Opt", args)[0])
}

#[test]
fn test_standalone_long_generates_kebab_case() {
    assert!(flag_set("FOO_OPTION", vec![word("long")], &["test", "--foo-option"]));
}

#[test]
fn test_custom_long_overwrites_default_name() {
    assert!(flag_set("foo_option", vec![lit("long", "foo")], &["test", "--foo"]));
}

#[test]
fn test_standalone_long_uses_previous_defined_custom_name() {
    assert!(flag_set("foo_option", vec![lit("name", "foo"), word("long")], &["test", "--foo"]));
}

#[test]
fn test_standalone_long_ignores_afterwards_defined_custom_name() {
    assert!(flag_set("foo_option", vec![word("long"), lit("name", "foo")], &["test", "--foo-option"]));
}

#[test]
fn test_standalone_short_generates_kebab_case() {
    assert!(flag_set("FOO_OPTION", vec![word("short")], &["test", "-f"]));
}

#[test]
fn test_custom_short_overwrites_default_name() {
    assert!(flag_set("foo_option", vec![lit("short", "o")], &["test", "-o"]));
}

#[test]
fn test_standalone_short_uses_previous_defined_custom_name() {
    assert!(flag_set("foo_option", vec![lit("name", "option"), word("short")], &["test", "-o"]));
}

#[test]
fn test_standalone_short_ignores_afterwards_defined_custom_name() {
    assert!(flag_set("foo_option", vec![word("short"), lit("name", "option")], &["test", "-f"]));
}

#[test]
fn test_standalone_long_uses_previous_defined_casing() {
    assert!(flag_set(
        "foo_option",
        vec![lit("rename_all", "screaming_snake"), word("long")],
        &["test", "--FOO_OPTION"]
    ));
}

#[test]
fn test_standalone_short_uses_previous_defined_casing() {
    assert!(flag_set("foo_option", vec![lit("rename_all", "screaming_snake"), word("short")], &["test", "-F"]));
}

#[test]
fn test_standalone_long_works_with_verbatim_casing() {
    assert!(flag_set(
        "_fOO_oPtiON",
        vec![lit("rename_all", "verbatim"), word("long")],
        &["test", "--_fOO_oPtiON"]
    ));
}

#[test]
fn test_standalone_short_works_with_verbatim_casing() {
    assert!(flag_set("_foo", vec![lit("rename_all", "verbatim"), word("short")], &["test", "-_"]));
}

// ---- flattening and delegation ------------------------------------------

fn inner() -> Declaration {
    record("Inner", vec![], vec![field("answer", ty("isize"), vec![])])
}

#[test]
fn generic_struct_flatten() {
    let reg = Reg::new(vec![
        inner(),
        record("Outer", vec![], vec![field("inner", ty("Inner"), vec![word("flatten")])]),
    ]);
    let nodes = reg.run_ok("Outer", &["--answer", "42"]);
    match &nodes[0] {
        Node::Flat(fields) => assert_eq!(42, num(&fields[0])),
        other => panic!("not flattened: {:?}", other),
    }
}

#[test]
fn generic_enum() {
    let reg = Reg::new(vec![
        inner(),
        union(
            "GenericEnum",
            vec![
                variant("Start", vec![], VariantFields::Unnamed(vec![ty("Inner")])),
                variant("Stop", vec![], VariantFields::Unit),
            ],
        ),
    ]);
    let nodes = reg.run_ok("GenericEnum", &["test", "start", "42"]);
    let (v, fields) = sub(&nodes[0]).unwrap();
    assert_eq!("Start", v);
    match &fields[0] {
        Node::Flat(inner_fields) => assert_eq!(42, num(&inner_fields[0])),
        other => panic!("not delegated: {:?}", other),
    }
}

#[test]
fn generic_w_fromstr_trait_bound() {
    let reg = single("answer", ty("isize"), vec![]);
    assert_eq!(42, num(&reg.run_ok("Opt", &["--answer", "42"])[0]));
}

// ---- scenarios ----------------------------------------------------------

#[test]
fn positional_required_single_value() {
    let reg = single("arg", ty("i32"), vec![]);
    assert_eq!(42, num(&reg.run_ok("Opt", &["test", "42"])[0]));
    assert!(reg.run("Opt", &["test"]).is_none());
    assert!(reg.run("Opt", &["test", "42", "24"]).is_none());
}

#[test]
fn positional_optional_single_value() {
    let reg = single("arg", wrap("Option", ty("i32")), vec![]);
    assert_eq!(None, maybe_int(&reg.run_ok("Opt", &["test"])[0]));
    assert_eq!(Some(42), maybe_int(&reg.run_ok("Opt", &["test", "42"])[0]));
}

#[test]
fn positional_with_default_value() {
    let reg = single("arg", ty("i32"), vec![lit("default_value", "42")]);
    assert_eq!(42, num(&reg.run_ok("Opt", &["test"])[0]));
    assert_eq!(24, num(&reg.run_ok("Opt", &["test", "24"])[0]));
}

#[test]
fn subcommand_dispatch_and_rejection() {
    let reg = Reg::new(vec![
        record("Cli", vec![], vec![field("cmd", ty("Sub"), vec![word("subcommand")])]),
        union(
            "Sub",
            vec![
                variant("Fetch", vec![], VariantFields::Named(vec![])),
                variant("Add", vec![], VariantFields::Named(vec![])),
            ],
        ),
    ]);
    let nodes = reg.run_ok("Cli", &["test", "fetch"]);
    assert_eq!(Some("Fetch"), sub(&nodes[0]).map(|(v, _)| v));
    assert!(reg.run("Cli", &["test", "badcmd"]).is_none());
}

#[test]
fn optional_option_option_and_option_vec() {
    let reg = Reg::new(vec![record(
        "Opt",
        vec![],
        vec![
            field("level", wrap("Option", wrap("Option", ty("i32"))), vec![word("long")]),
            field("names", wrap("Option", wrap("Vec", ty("String"))), vec![word("long")]),
        ],
    )]);
    let nodes = reg.run_ok("Opt", &["test"]);
    assert_eq!(&FieldValue::MaybeMaybe(None), val(&nodes[0]));
    assert_eq!(&FieldValue::MaybeMany(None), val(&nodes[1]));
    let nodes = reg.run_ok("Opt", &["test", "--level", "--names"]);
    assert_eq!(&FieldValue::MaybeMaybe(Some(None)), val(&nodes[0]));
    assert_eq!(&FieldValue::MaybeMany(Some(vec![])), val(&nodes[1]));
    let nodes = reg.run_ok("Opt", &["test", "--level", "3", "--names", "a", "b"]);
    assert_eq!(&FieldValue::MaybeMaybe(Some(Some("3".to_string()))), val(&nodes[0]));
    assert_eq!(&FieldValue::MaybeMany(Some(vec!["a".to_string(), "b".to_string()])), val(&nodes[1]));
    assert!(reg.matches("Opt", &["test", "--level", "3", "4"]).is_err());
}

// ---- help text ----------------------------------------------------------

fn doc_record(name: &str, doc: &[&str], attrs: Vec<AttrInput>, fields: Vec<Field>) -> Declaration {
    let mut d = record(name, attrs, fields);
    d.doc = doc.iter().map(|l| l.to_string()).collect();
    d
}

#[test]
fn doc_comments() {
    let reg = Reg::new(vec![doc_record(
        "LoremIpsum",
        &[" Lorem ipsum"],
        vec![],
        vec![documented(
            field("foo", ty("bool"), vec![word("short"), word("long")]),
            &[" Fooify a bar", " and a baz"],
        )],
    )]);
    let help = reg.long_help("LoremIpsum");
    assert!(help.contains("Lorem ipsum"));
    assert!(help.contains("Fooify a bar and a baz"));
}

#[test]
fn help_is_better_than_comments() {
    let reg = Reg::new(vec![doc_record(
        "LoremIpsum",
        &[" Lorem ipsum"],
        vec![lit("name", "lorem-ipsum"), lit("about", "Dolor sit amet")],
        vec![documented(
            field(
                "foo",
                ty("bool"),
                vec![word("short"), word("long"), lit("help", "DO NOT PASS A BAR UNDER ANY CIRCUMSTANCES")],
            ),
            &[" Fooify a bar"],
        )],
    )]);
    let help = reg.long_help("LoremIpsum");
    assert!(help.contains("Dolor sit amet"));
    assert!(!help.contains("Lorem ipsum"));
    assert!(help.contains("DO NOT PASS A BAR"));
}

#[test]
fn empty_line_in_doc_comment_is_double_linefeed() {
    let reg = Reg::new(vec![doc_record(
        "LoremIpsum",
        &[" Foo.", "", " Bar"],
        vec![lit("name", "lorem-ipsum"), word("no_version")],
        vec![],
    )]);
    let help = reg.long_help("LoremIpsum");
    assert!(help.starts_with("lorem-ipsum \nFoo.\n\nBar\n\nUSAGE:"));
}

#[test]
fn field_long_doc_comment_both_help_long_help() {
    let reg = Reg::new(vec![doc_record(
        "LoremIpsum",
        &[" Lorem ipsumclap"],
        vec![lit("name", "lorem-ipsum"), lit("about", "Dolor sit amet")],
        vec![documented(
            field("foo", ty("bool"), vec![word("long")]),
            &[" DO NOT PASS A BAR UNDER ANY CIRCUMSTANCES.", "", " Or something else"],
        )],
    )]);
    let short_help = reg.help("LoremIpsum");
    let long_help = reg.long_help("LoremIpsum");
    assert!(short_help.contains("CIRCUMSTANCES"));
    assert!(!short_help.contains("CIRCUMSTANCES."));
    assert!(!short_help.contains("Or something else"));
    assert!(long_help.contains("DO NOT PASS A BAR UNDER ANY CIRCUMSTANCES"));
    assert!(long_help.contains("Or something else"));
}

#[test]
fn top_long_doc_comment_both_help_long_help() {
    let mut foo = variant(
        "Foo",
        vec![],
        VariantFields::Named(vec![field("bars", wrap("Vec", ty("String")), vec![lit("help", "foo")])]),
    );
    foo.doc = vec![
        " DO NOT PASS A BAR UNDER ANY CIRCUMSTANCES".to_string(),
        "".to_string(),
        " Or something else".to_string(),
    ];
    let reg = Reg::new(vec![
        doc_record(
            "LoremIpsum",
            &[" Lorem ipsumclap"],
            vec![lit("name", "lorem-ipsum"), lit("about", "Dolor sit amet")],
            vec![field("foo", ty("SubCommand"), vec![word("subcommand")])],
        ),
        union("SubCommand", vec![foo]),
    ]);
    let short_help = reg.help("LoremIpsum");
    let long_help = reg.subcommand_long_help("LoremIpsum", "foo");
    assert!(!short_help.contains("Or something else"));
    assert!(long_help.contains("DO NOT PASS A BAR UNDER ANY CIRCUMSTANCES"));
    assert!(long_help.contains("Or something else"));
}

#[test]
fn test_multiple_identical_value_names() {
    let reg = Reg::new(vec![record(
        "Opt",
        vec![],
        vec![
            field("num1", ty("u32"), vec![word("long"), lit("value_name", "NUM")]),
            field("num2", ty("u32"), vec![word("long"), lit("value_name", "NUM")]),
        ],
    )]);
    let help = reg.long_help("Opt");
    assert!(help.contains("--num1 <NUM>"));
    assert!(help.contains("--num2 <NUM>"));
}

#[test]
fn test_name_and_value_names() {
    let reg = single("num", ty("u32"), vec![word("long"), lit("name", "not_num"), lit("value_name", "NUM")]);
    let help = reg.long_help("Opt");
    assert!(help.contains("--num <NUM>"));
}

#[test]
fn invisible_group_issue_439() {
    let reg = single("x", ty("bool"), vec![lit("long", "x")]);
    let help = reg.long_help("Opt");
    assert!(help.contains("--x"));
    assert!(!help.contains("--x <x>"));
    reg.matches("Opt", &["test", "--x"]).unwrap();
}

#[test]
fn issue_324() {
    let reg = Reg::new(vec![
        record(
            "Opt",
            vec![AttrInput::Assign("version".to_string(), Expr::Other("my_version()".to_string()))],
            vec![field("cmd", wrap("Option", ty("SubCommand")), vec![word("subcommand")])],
        ),
        union("SubCommand", vec![variant("Start", vec![], VariantFields::Unit)]),
    ]);
    let help = reg.long_help("Opt");
    assert!(help.contains("MY_VERSION"));
}
