use heck::{ToKebabCase, ToLowerCamelCase, ToSnakeCase, ToUpperCamelCase};
use vstd::prelude::*;
use vstd::string::StringExecFns;

verus! {

/// What `heck::ToLowerCamelCase` makes of a string.
pub uninterp spec fn lower_camel_of(s: Seq<char>) -> Seq<char>;

/// What `heck::ToUpperCamelCase` makes of a string.
pub uninterp spec fn upper_camel_of(s: Seq<char>) -> Seq<char>;

/// What `heck::ToSnakeCase` makes of a string.
pub uninterp spec fn snake_of(s: Seq<char>) -> Seq<char>;

/// What `heck::ToKebabCase` makes of a string.
pub uninterp spec fn kebab_of(s: Seq<char>) -> Seq<char>;

/// What `str::to_lowercase` makes of a string.
pub uninterp spec fn lower_of(s: Seq<char>) -> Seq<char>;

/// What `str::to_uppercase` makes of a string.
pub uninterp spec fn upper_of(s: Seq<char>) -> Seq<char>;

/// Relies on heck's `to_lower_camel_case`, a function of the characters alone.
#[verifier::external_body]
fn to_lower_camel(s: &str) -> (r: String)
    ensures
        r@ == lower_camel_of(s@),
{
    s.to_lower_camel_case()
}

/// Relies on heck's `to_upper_camel_case`, a function of the characters alone.
#[verifier::external_body]
fn to_upper_camel(s: &str) -> (r: String)
    ensures
        r@ == upper_camel_of(s@),
{
    s.to_upper_camel_case()
}

/// Relies on heck's `to_snake_case`, a function of the characters alone.
#[verifier::external_body]
fn to_snake(s: &str) -> (r: String)
    ensures
        r@ == snake_of(s@),
{
    s.to_snake_case()
}

/// Relies on heck's `to_kebab_case`, a function of the characters alone.
#[verifier::external_body]
fn to_kebab(s: &str) -> (r: String)
    ensures
        r@ == kebab_of(s@),
{
    s.to_kebab_case()
}

/// Relies on `str::to_lowercase`, a function of the characters alone.
#[verifier::external_body]
pub(crate) fn to_lower(s: &str) -> (r: String)
    ensures
        r@ == lower_of(s@),
{
    s.to_lowercase()
}

/// Relies on `str::to_uppercase`, a function of the characters alone.
#[verifier::external_body]
fn to_upper(s: &str) -> (r: String)
    ensures
        r@ == upper_of(s@),
{
    s.to_uppercase()
}

/// A naming convention that turns a variant's identifier into the string
/// that selects it on the command line.
#[derive(Clone, Copy, Debug, PartialEq, Eq, Structural)]
pub enum Casing {
    Camel,
    Kabob,
    Snake,
    Pascal,
    Lower,
    Upper,
    ScreamingSnake,
}

/// The convention that a `rename_all` value names, if it names one.
pub open spec fn casing_named(v: Seq<char>) -> Option<Casing> {
    if v == "kabob-case"@ {
        Some(Casing::Kabob)
    } else if v == "camelCase"@ {
        Some(Casing::Camel)
    } else if v == "PascalCase"@ {
        Some(Casing::Pascal)
    } else if v == "snake_case"@ {
        Some(Casing::Snake)
    } else if v == "SCREAMING_SNAKE_CASE"@ {
        Some(Casing::ScreamingSnake)
    } else if v == "lowercase"@ {
        Some(Casing::Lower)
    } else if v == "UPPERCASE"@ {
        Some(Casing::Upper)
    } else {
        None
    }
}

/// Whether two strings hold the same characters.
fn same_text(a: &str, b: &str) -> (r: bool)
    ensures
        r == (a@ == b@),
{
    let x = String::from_str(a);
    let y = String::from_str(b);
    x == y
}

/// What the derive sees of one attribute on the enum or on a variant.
#[derive(Debug)]
pub enum AttrShape {
    /// A bare path, `#[name]`.
    Path,
    /// `#[name = value]`.
    NameValue,
    /// `#[a::b(tokens)]`: the last segment of the path, if any, and the
    /// string of `tokens` when they read as `ident = "string"`.
    List { last_segment: Option<String>, rename: Option<String> },
}

/// Why an attribute gives no naming convention.
#[derive(Debug)]
pub enum AttrIssue {
    /// The attribute has no argument list.
    NotAList,
    /// The attribute is not `catchall`.
    NotCatchall,
    /// The arguments are not of the form `ident = "string"`.
    Malformed,
    /// The string names no known convention.
    UnknownCasing(String),
}

impl AttrIssue {
    /// An issue that stops the derive, rather than one that lets the search
    /// go on to the next attribute.
    pub open spec fn is_fatal(self) -> bool {
        self is NotAList || self is NotCatchall
    }
}

/// The convention that one attribute asks for, or why it asks for none.
pub open spec fn attr_outcome(a: AttrShape) -> Result<Casing, AttrIssue> {
    match a {
        AttrShape::List { last_segment, rename } => {
            if last_segment is None || last_segment->0@ != "catchall"@ {
                Err(AttrIssue::NotCatchall)
            } else {
                match rename {
                    None => Err(AttrIssue::Malformed),
                    Some(v) => match casing_named(v@) {
                        Some(c) => Ok(c),
                        None => Err(AttrIssue::UnknownCasing(v)),
                    },
                }
            }
        },
        _ => Err(AttrIssue::NotAList),
    }
}

/// The convention of the first attribute that gives one, stopping at the
/// first fatal issue; `None` when no attribute gives one.
pub open spec fn attrs_outcome(s: Seq<AttrShape>) -> Result<Option<Casing>, AttrIssue>
    decreases s.len(),
{
    if s.len() == 0 {
        Ok(None)
    } else {
        match attr_outcome(s[0]) {
            Ok(c) => Ok(Some(c)),
            Err(e) => if e.is_fatal() {
                Err(e)
            } else {
                attrs_outcome(s.drop_first())
            },
        }
    }
}

impl Casing {
    /// The string that this convention makes of `s`.
    pub open spec fn spec_apply(self, s: Seq<char>) -> Seq<char> {
        match self {
            Casing::Camel => lower_camel_of(s),
            Casing::Pascal => upper_camel_of(s),
            Casing::Snake => snake_of(s),
            Casing::ScreamingSnake => upper_of(snake_of(s)),
            Casing::Kabob => kebab_of(s),
            Casing::Lower => lower_of(s),
            Casing::Upper => upper_of(s),
        }
    }

    /// Renames `s` by this convention.
    pub fn apply(self, s: &str) -> (r: String)
        ensures
            r@ == self.spec_apply(s@),
    {
        match self {
            Casing::Camel => to_lower_camel(s),
            Casing::Pascal => to_upper_camel(s),
            Casing::Snake => to_snake(s),
            Casing::ScreamingSnake => {
                let snake = to_snake(s);
                to_upper(snake.as_str())
            },
            Casing::Kabob => to_kebab(s),
            Casing::Lower => to_lower(s),
            Casing::Upper => to_upper(s),
        }
    }

    /// The convention named by the value of a `rename_all` argument.
    pub fn from_name(v: &str) -> (r: Option<Casing>)
        ensures
            r == casing_named(v@),
    {
        if same_text(v, "kabob-case") {
            Some(Casing::Kabob)
        } else if same_text(v, "camelCase") {
            Some(Casing::Camel)
        } else if same_text(v, "PascalCase") {
            Some(Casing::Pascal)
        } else if same_text(v, "snake_case") {
            Some(Casing::Snake)
        } else if same_text(v, "SCREAMING_SNAKE_CASE") {
            Some(Casing::ScreamingSnake)
        } else if same_text(v, "lowercase") {
            Some(Casing::Lower)
        } else if same_text(v, "UPPERCASE") {
            Some(Casing::Upper)
        } else {
            None
        }
    }

    /// The convention that one attribute asks for.
    pub fn try_from_attr(a: &AttrShape) -> (r: Result<Casing, AttrIssue>)
        ensures
            r == attr_outcome(*a),
    {
        match a {
            AttrShape::List { last_segment, rename } => {
                let is_catchall = match last_segment {
                    Some(seg) => same_text(seg.as_str(), "catchall"),
                    None => false,
                };
                if !is_catchall {
                    return Err(AttrIssue::NotCatchall);
                }
                match rename {
                    None => Err(AttrIssue::Malformed),
                    Some(v) => match Casing::from_name(v.as_str()) {
                        Some(c) => Ok(c),
                        None => Err(AttrIssue::UnknownCasing(v.clone())),
                    },
                }
            },
            _ => Err(AttrIssue::NotAList),
        }
    }

    /// The convention of the first attribute in `attrs` that gives one.
    pub fn try_from_attrs(attrs: &Vec<AttrShape>) -> (r: Result<Option<Casing>, AttrIssue>)
        ensures
            r == attrs_outcome(attrs@),
    {
        let mut i: usize = 0;
        assert(attrs@.subrange(0, attrs@.len() as int) =~= attrs@);
        while i < attrs.len()
            invariant
                i <= attrs@.len(),
                attrs_outcome(attrs@) == attrs_outcome(attrs@.subrange(i as int, attrs@.len() as int)),
            decreases attrs@.len() - i,
        {
            let ghost rest = attrs@.subrange(i as int, attrs@.len() as int);
            assert(rest.drop_first() =~= attrs@.subrange(i + 1, attrs@.len() as int));
            match Casing::try_from_attr(&attrs[i]) {
                Ok(c) => {
                    return Ok(Some(c));
                },
                Err(e) => {
                    if matches!(e, AttrIssue::NotAList | AttrIssue::NotCatchall) {
                        return Err(e);
                    }
                },
            }
            i = i + 1;
        }
        assert(attrs@.subrange(i as int, attrs@.len() as int).len() == 0);
        Ok(None)
    }
}

} // verus!
