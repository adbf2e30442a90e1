use crate::casing::AttrShape;
use crate::layout::{
    catchall_type_name, lookup_variants_and_catchall, spec_layout, spec_type_name, DeriveError,
    FieldsShape, Layout, UnitVariant, VariantShape, layout_fits,
};
use vstd::prelude::*;
use vstd::string::StringExecFns;

verus! {

/// The name of the parser type generated for enum `ident`.
pub open spec fn spec_parser_ident(ident: Seq<char>) -> Seq<char> {
    "__"@ + ident + "Parser"@
}

/// The name of the parser type generated for enum `ident`.
pub fn parser_ident(ident: &str) -> (r: String)
    ensures
        r@ == spec_parser_ident(ident@),
{
    let s = String::from_str("__");
    let s = s.concat(ident);
    s.concat("Parser")
}

/// How the catch-all value is shown among the possible values: the type's
/// name in angle brackets.
pub open spec fn spec_placeholder(name: Seq<char>) -> Seq<char> {
    "<"@ + name + ">"@
}

/// Everything the generated parser needs: the layout and the catch-all
/// placeholder.
#[derive(Debug)]
pub struct ParserPlan {
    pub layout: Layout,
    pub placeholder: String,
}

impl View for ParserPlan {
    type V = ((nat, Seq<(Seq<char>, nat)>), Seq<char>);

    open spec fn view(&self) -> ((nat, Seq<(Seq<char>, nat)>), Seq<char>) {
        (self.layout@, self.placeholder@)
    }
}

/// The plan of the parser for an enum with attributes `attrs` and variants
/// `vs`: its layout, which must hold a unit variant, and the placeholder
/// built from the catch-all field's type.
pub open spec fn spec_plan(vs: Seq<VariantShape>, attrs: Seq<AttrShape>) -> Result<
    ((nat, Seq<(Seq<char>, nat)>), Seq<char>),
    DeriveError,
> {
    match spec_layout(vs, attrs) {
        Err(e) => Err(e),
        Ok(m) => if m.1.len() == 0 {
            Err(DeriveError::NoUnitVariants)
        } else {
            match vs[m.0 as int].fields {
                FieldsShape::Unnamed(tys) => match spec_type_name(tys@[0]) {
                    Ok(n) => Ok((m, spec_placeholder(n))),
                    Err(e) => Err(e),
                },
                _ => Err(DeriveError::MissingCatchall),
            }
        },
    }
}

/// Reads the enum and prepares what the generated value parser is made of.
pub fn typed_value_parser_plan(variants: &Vec<VariantShape>, attrs: &Vec<AttrShape>) -> (r:
    Result<ParserPlan, DeriveError>)
    ensures
        match (r, spec_plan(variants@, attrs@)) {
            (Ok(p), Ok(q)) => p@ == q,
            (Err(a), Err(b)) => a == b,
            _ => false,
        },
        r matches Ok(p) ==> layout_fits(variants@, p.layout@),
{
    let layout = match lookup_variants_and_catchall(variants, attrs) {
        Ok(l) => l,
        Err(e) => {
            return Err(e);
        },
    };
    if layout.units.len() == 0 {
        return Err(DeriveError::NoUnitVariants);
    }
    let name = match &variants[layout.catchall].fields {
        FieldsShape::Unnamed(tys) => match catchall_type_name(&tys[0]) {
            Ok(n) => n,
            Err(e) => {
                return Err(e);
            },
        },
        _ => {
            return Err(DeriveError::MissingCatchall);
        },
    };
    let placeholder = String::from_str("<").concat(name.as_str()).concat(">");
    Ok(ParserPlan { layout, placeholder })
}

/// The values that the parser offers: each unit variant's name in order,
/// then the placeholder.
pub fn possible_values(units: &Vec<UnitVariant>, placeholder: &str) -> (r: Vec<String>)
    ensures
        r@.len() == units@.len() + 1,
        forall|j: int| 0 <= j < units@.len() ==> #[trigger] r@[j]@ == units@[j].name@,
        r@[units@.len() as int]@ == placeholder@,
{
    let mut out: Vec<String> = Vec::new();
    let mut i: usize = 0;
    while i < units.len()
        invariant
            i <= units@.len(),
            out@.len() == i,
            forall|j: int| 0 <= j < i ==> #[trigger] out@[j]@ == units@[j].name@,
        decreases units@.len() - i,
    {
        out.push(units[i].name.clone());
        i = i + 1;
    }
    out.push(String::from_str(placeholder));
    out
}

/// Picks the unit variant that a command-line value names: the first name
/// equal to `value`, or `None`, in which case the value goes to the
/// catch-all type's own parser.
pub fn select_unit(names: &Vec<String>, value: &str) -> (r: Option<usize>)
    ensures
        match r {
            Some(k) => k < names@.len() && names@[k as int]@ == value@ && forall|j: int|
                0 <= j < k ==> names@[j]@ != value@,
            None => forall|j: int| 0 <= j < names@.len() ==> names@[j]@ != value@,
        },
{
    let v = String::from_str(value);
    let mut i: usize = 0;
    while i < names.len()
        invariant
            i <= names@.len(),
            v@ == value@,
            forall|j: int| 0 <= j < i ==> names@[j]@ != value@,
        decreases names@.len() - i,
    {
        if names[i] == v {
            return Some(i);
        }
        i = i + 1;
    }
    None
}

} // verus!
