//! Casing styles for the external names of arguments and subcommands.
use vstd::prelude::*;

use crate::error::GenError;
use crate::text::str_eq;

verus! {

/// How an identifier is turned into an external argument name.
#[derive(Clone, Copy, Debug, PartialEq, Eq, Structural)]
pub enum CasingStyle {
    /// Word boundaries shown by upper-case letters, except for the first word.
    Camel,
    /// Lower-case words joined by hyphens.
    Kebab,
    /// Word boundaries shown by upper-case letters, the first word included.
    Pascal,
    /// Upper-case words joined by underscores.
    ScreamingSnake,
    /// Lower-case words joined by underscores.
    Snake,
    /// The identifier as written.
    Verbatim,
}

/// What heck's `to_camel_case` (upper camel case) gives for `s`.
pub uninterp spec fn upper_camel_of(s: Seq<char>) -> Seq<char>;

/// What heck's `to_kebab_case` gives for `s`.
pub uninterp spec fn kebab_of(s: Seq<char>) -> Seq<char>;

/// What heck's `to_mixed_case` (lower camel case) gives for `s`.
pub uninterp spec fn lower_camel_of(s: Seq<char>) -> Seq<char>;

/// What heck's `to_shouty_snake_case` gives for `s`.
pub uninterp spec fn shouty_snake_of(s: Seq<char>) -> Seq<char>;

/// What heck's `to_snake_case` gives for `s`.
pub uninterp spec fn snake_of(s: Seq<char>) -> Seq<char>;

/// What `str::to_lowercase` gives for `s`.
pub uninterp spec fn lowercase_of(s: Seq<char>) -> Seq<char>;

/// Relies on heck's `CamelCase::to_camel_case`: a function of the characters
/// alone; an input without words gives an empty result.
#[verifier::external_body]
fn heck_upper_camel(s: &str) -> (r: String)
    ensures
        r@ == upper_camel_of(s@),
        s@.len() == 0 ==> r@.len() == 0,
{
    heck::CamelCase::to_camel_case(s)
}

/// Relies on heck's `KebabCase::to_kebab_case`: a function of the characters
/// alone; an input without words gives an empty result.
#[verifier::external_body]
fn heck_kebab(s: &str) -> (r: String)
    ensures
        r@ == kebab_of(s@),
        s@.len() == 0 ==> r@.len() == 0,
{
    heck::KebabCase::to_kebab_case(s)
}

/// Relies on heck's `MixedCase::to_mixed_case`: a function of the characters
/// alone; an input without words gives an empty result.
#[verifier::external_body]
fn heck_lower_camel(s: &str) -> (r: String)
    ensures
        r@ == lower_camel_of(s@),
        s@.len() == 0 ==> r@.len() == 0,
{
    heck::MixedCase::to_mixed_case(s)
}

/// Relies on heck's `ShoutySnakeCase::to_shouty_snake_case`: a function of the
/// characters alone; an input without words gives an empty result.
#[verifier::external_body]
fn heck_shouty_snake(s: &str) -> (r: String)
    ensures
        r@ == shouty_snake_of(s@),
        s@.len() == 0 ==> r@.len() == 0,
{
    heck::ShoutySnakeCase::to_shouty_snake_case(s)
}

/// Relies on heck's `SnakeCase::to_snake_case`: a function of the characters
/// alone; an input without words gives an empty result.
#[verifier::external_body]
fn heck_snake(s: &str) -> (r: String)
    ensures
        r@ == snake_of(s@),
        s@.len() == 0 ==> r@.len() == 0,
{
    heck::SnakeCase::to_snake_case(s)
}

/// Relies on `str::to_lowercase`: a function of the characters alone; the
/// empty string stays empty.
#[verifier::external_body]
fn to_lowercase(s: &str) -> (r: String)
    ensures
        r@ == lowercase_of(s@),
        s@.len() == 0 ==> r@.len() == 0,
{
    s.to_lowercase()
}

/// The style named by a normalised (lower-case, separator-free) style name.
pub open spec fn style_named(n: Seq<char>) -> Option<CasingStyle> {
    if n == "camel"@ || n == "camelcase"@ {
        Some(CasingStyle::Camel)
    } else if n == "kebab"@ || n == "kebabcase"@ {
        Some(CasingStyle::Kebab)
    } else if n == "pascal"@ || n == "pascalcase"@ {
        Some(CasingStyle::Pascal)
    } else if n == "screamingsnake"@ || n == "screamingsnakecase"@ {
        Some(CasingStyle::ScreamingSnake)
    } else if n == "snake"@ || n == "snakecase"@ {
        Some(CasingStyle::Snake)
    } else if n == "verbatim"@ || n == "verbatimcase"@ {
        Some(CasingStyle::Verbatim)
    } else {
        None
    }
}

/// The normal form of a style name: upper camel case, then lower case, so that
/// `"kebab-case"`, `"KebabCase"` and `"kebab_case"` meet.
pub open spec fn normalized_style_name(s: Seq<char>) -> Seq<char> {
    lowercase_of(upper_camel_of(s))
}

/// The style that the `rename_all` value `s` names.
pub open spec fn lit_casing(s: Seq<char>) -> Result<CasingStyle, GenError> {
    match style_named(normalized_style_name(s)) {
        Some(c) => Ok(c),
        None => Err(GenError::UnsupportedCasing),
    }
}

impl CasingStyle {
    /// The external name that this style gives to the identifier `s`.
    pub open spec fn spec_translate(self, s: Seq<char>) -> Seq<char> {
        match self {
            CasingStyle::Pascal => upper_camel_of(s),
            CasingStyle::Kebab => kebab_of(s),
            CasingStyle::Camel => lower_camel_of(s),
            CasingStyle::ScreamingSnake => shouty_snake_of(s),
            CasingStyle::Snake => snake_of(s),
            CasingStyle::Verbatim => s,
        }
    }

    /// Applies this style to `input`.
    pub fn translate(&self, input: &str) -> (r: String)
        ensures
            r@ == self.spec_translate(input@),
    {
        match self {
            CasingStyle::Pascal => heck_upper_camel(input),
            CasingStyle::Kebab => heck_kebab(input),
            CasingStyle::Camel => heck_lower_camel(input),
            CasingStyle::ScreamingSnake => heck_shouty_snake(input),
            CasingStyle::Snake => heck_snake(input),
            CasingStyle::Verbatim => String::from_str(input),
        }
    }

    /// The style named by an already normalised name, or `None` where the name
    /// is not one of the six styles (with or without a `case` suffix).
    pub fn from_normalized(n: &str) -> (r: Option<CasingStyle>)
        ensures
            r == style_named(n@),
    {
        if str_eq(n, "camel") || str_eq(n, "camelcase") {
            Some(CasingStyle::Camel)
        } else if str_eq(n, "kebab") || str_eq(n, "kebabcase") {
            Some(CasingStyle::Kebab)
        } else if str_eq(n, "pascal") || str_eq(n, "pascalcase") {
            Some(CasingStyle::Pascal)
        } else if str_eq(n, "screamingsnake") || str_eq(n, "screamingsnakecase") {
            Some(CasingStyle::ScreamingSnake)
        } else if str_eq(n, "snake") || str_eq(n, "snakecase") {
            Some(CasingStyle::Snake)
        } else if str_eq(n, "verbatim") || str_eq(n, "verbatimcase") {
            Some(CasingStyle::Verbatim)
        } else {
            None
        }
    }

    /// The style that a `rename_all` directive names; an unknown name is
    /// refused.
    pub fn from_lit(name: &str) -> (r: Result<CasingStyle, GenError>)
        ensures
            r == lit_casing(name@),
    {
        let camel = heck_upper_camel(name);
        let normalized = to_lowercase(camel.as_str());
        match CasingStyle::from_normalized(normalized.as_str()) {
            Some(c) => Ok(c),
            None => Err(GenError::UnsupportedCasing),
        }
    }
}

/// `Verbatim` keeps every identifier as it is, so applying it twice gives
/// what applying it once gives. (`translate` has no precondition: it is
/// defined on every input.)
pub proof fn lemma_verbatim_idempotent(s: Seq<char>)
    ensures
        CasingStyle::Verbatim.spec_translate(s) == s,
        CasingStyle::Verbatim.spec_translate(CasingStyle::Verbatim.spec_translate(s))
            == CasingStyle::Verbatim.spec_translate(s),
{
}

} // verus!
