//! Why a declaration is refused.
use vstd::prelude::*;

verus! {

/// A refusal of a declaration: each names one rule that the declaration breaks.
#[derive(Clone, Copy, Debug, PartialEq, Eq, Structural)]
pub enum GenError {
    /// `rename_all` names no known casing style.
    UnsupportedCasing,
    /// `parse(...)` names no known parser kind.
    UnsupportedParser,
    /// `parse(try_from_os_str)` without a function.
    MissingParserFunction,
    /// The function given to `parse(...)` is not a path.
    ParserFunctionNotPath,
    /// `parse(...)` does not hold exactly one specification.
    ParseArgumentCount,
    /// A parser specification does not start with an identifier.
    ParserSpecNotIdent,
    /// A bare `about`, and the package metadata has no description.
    MissingAbout,
    /// A bare `author`, and the package metadata has no authors.
    MissingAuthor,
    /// `version = ""`.
    EmptyVersion,
    /// `author = ""`.
    EmptyAuthor,
    /// `about = ""`.
    EmptyAbout,
    /// `raw(...)` with anything but one boolean literal.
    RawRemoved,
    /// A bare `version`.
    BareVersion,
    /// A directive that is not known.
    UnexpectedAttribute,
    /// A known directive that this resolver does not handle.
    UnsupportedDirective,
    /// `parse` on a struct, enum or variant.
    ParseOnTopLevel,
    /// `subcommand` on a struct, enum or variant.
    SubcommandOnTopLevel,
    /// `flatten` on a struct, enum or variant.
    FlattenOnTopLevel,
    /// `skip` on a struct, enum or variant.
    SkipOnTopLevel,
    /// `parse` on a flattened field.
    ParseOnFlatten,
    /// Methods or doc comments on a flattened field.
    MethodsOnFlatten,
    /// `parse` on a subcommand field.
    ParseOnSubcommand,
    /// A method other than `help` on a subcommand field.
    MethodOnSubcommand,
    /// A subcommand field of type `Option<Option<T>>`.
    OptionOptionSubcommand,
    /// A subcommand field of type `Option<Vec<T>>`.
    OptionVecSubcommand,
    /// A method other than `help` or `long_help` on a skipped field.
    MethodOnSkip,
    /// `default_value` on a `bool` field.
    DefaultValueForBool,
    /// `required` on a `bool` field.
    RequiredForBool,
    /// `default_value` on an `Option` field.
    DefaultValueForOption,
    /// `required` on an `Option` field.
    RequiredForOption,
    /// An `Option<Option<T>>` field that is neither `long` nor `short`.
    OptionOptionPositional,
    /// An `Option<Vec<T>>` field that is neither `long` nor `short`.
    OptionVecPositional,
    /// Two of `subcommand`, `flatten` and `skip` on one field.
    ConflictingKinds,
    /// `no_version` together with `version = "..."`.
    VersionAndNoVersion,
    /// A second subcommand field in one record.
    MultipleSubcommands,
    /// A variant with more than one unnamed field.
    TupleVariant,
    /// A field without a name.
    UnnamedField,
    /// A declaration that is neither a record with named fields nor a tagged
    /// union.
    UnsupportedShape,
}

} // verus!
