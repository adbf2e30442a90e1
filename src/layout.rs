use crate::casing::{attrs_outcome, lower_of, to_lower, AttrIssue, AttrShape, Casing};
use vstd::prelude::*;

verus! {

/// What the derive reads of a field's type.
#[derive(Debug)]
pub enum TypeShape {
    /// A path such as `std::string::String`: its segments' identifiers.
    Path(Vec<String>),
    /// A reference `&T`.
    Reference(Box<TypeShape>),
    /// Any other form of type.
    Other,
}

/// What the derive reads of a variant's fields.
#[derive(Debug)]
pub enum FieldsShape {
    /// No fields.
    Unit,
    /// Tuple fields: the type of each.
    Unnamed(Vec<TypeShape>),
    /// Named fields.
    Named,
}

/// What the derive reads of one variant.
#[derive(Debug)]
pub struct VariantShape {
    pub ident: String,
    pub attrs: Vec<AttrShape>,
    pub fields: FieldsShape,
}

/// Why an enum cannot have the parser derived.
#[derive(Debug)]
pub enum DeriveError {
    /// An attribute on the enum or a variant is not a well-formed `catchall`.
    Attr(AttrIssue),
    /// A tuple variant with other than one field.
    CatchallFieldCount,
    /// A second tuple variant.
    DuplicateCatchall,
    /// A variant with named fields.
    NamedFields,
    /// No tuple variant.
    MissingCatchall,
    /// No unit variant.
    NoUnitVariants,
    /// The catch-all field's type is a path without segments.
    EmptyTypePath,
    /// The catch-all field's type is neither a path nor a reference.
    UnsupportedType,
}

/// The lower-cased name of a type's last path segment, looking through
/// references.
pub open spec fn spec_type_name(t: TypeShape) -> Result<Seq<char>, DeriveError>
    decreases t,
{
    match t {
        TypeShape::Path(segs) => if segs@.len() == 0 {
            Err(DeriveError::EmptyTypePath)
        } else {
            Ok(lower_of(segs@.last()@))
        },
        TypeShape::Reference(inner) => spec_type_name(*inner),
        TypeShape::Other => Err(DeriveError::UnsupportedType),
    }
}

/// The name that the parser shows for the catch-all type.
pub fn catchall_type_name(t: &TypeShape) -> (r: Result<String, DeriveError>)
    ensures
        match (r, spec_type_name(*t)) {
            (Ok(a), Ok(b)) => a@ == b,
            (Err(a), Err(b)) => a == b,
            _ => false,
        },
    decreases t,
{
    match t {
        TypeShape::Path(segs) => {
            if segs.len() == 0 {
                Err(DeriveError::EmptyTypePath)
            } else {
                Ok(to_lower(segs[segs.len() - 1].as_str()))
            }
        },
        TypeShape::Reference(inner) => catchall_type_name(inner),
        TypeShape::Other => Err(DeriveError::UnsupportedType),
    }
}

/// A unit variant with the string that selects it.
#[derive(Debug)]
pub struct UnitVariant {
    pub name: String,
    /// The variant's position in the enum.
    pub index: usize,
}

/// Where the catch-all variant stands, and the unit variants in order.
#[derive(Debug)]
pub struct Layout {
    pub catchall: usize,
    pub units: Vec<UnitVariant>,
}

/// The unit variants as (name, position) pairs.
pub open spec fn units_view(units: Seq<UnitVariant>) -> Seq<(Seq<char>, nat)> {
    units.map_values(|u: UnitVariant| (u.name@, u.index as nat))
}

impl View for Layout {
    type V = (nat, Seq<(Seq<char>, nat)>);

    open spec fn view(&self) -> (nat, Seq<(Seq<char>, nat)>) {
        (self.catchall as nat, units_view(self.units@))
    }
}

/// The string that selects a unit variant: its identifier renamed by the
/// variant's own convention, else by the enum's, else left as it is.
pub open spec fn unit_name(v: VariantShape, global: Option<Casing>) -> Result<Seq<char>, AttrIssue> {
    match attrs_outcome(v.attrs@) {
        Err(e) => Err(e),
        Ok(Some(c)) => Ok(c.spec_apply(v.ident@)),
        Ok(None) => match global {
            Some(c) => Ok(c.spec_apply(v.ident@)),
            None => Ok(v.ident@),
        },
    }
}

/// Reads the variants from position `i` on, given the catch-all and the unit
/// variants found before it.
pub open spec fn scan(
    vs: Seq<VariantShape>,
    global: Option<Casing>,
    i: nat,
    catchall: Option<nat>,
    units: Seq<(Seq<char>, nat)>,
) -> Result<(nat, Seq<(Seq<char>, nat)>), DeriveError>
    decreases vs.len() - i,
{
    if i >= vs.len() {
        match catchall {
            None => Err(DeriveError::MissingCatchall),
            Some(c) => Ok((c, units)),
        }
    } else {
        match vs[i as int].fields {
            FieldsShape::Unit => match unit_name(vs[i as int], global) {
                Err(e) => Err(DeriveError::Attr(e)),
                Ok(n) => scan(vs, global, i + 1, catchall, units.push((n, i))),
            },
            FieldsShape::Unnamed(tys) => if tys@.len() != 1 {
                Err(DeriveError::CatchallFieldCount)
            } else if catchall is Some {
                Err(DeriveError::DuplicateCatchall)
            } else {
                scan(vs, global, i + 1, Some(i), units)
            },
            FieldsShape::Named => Err(DeriveError::NamedFields),
        }
    }
}

/// The layout of an enum with attributes `attrs` and variants `vs`.
pub open spec fn spec_layout(vs: Seq<VariantShape>, attrs: Seq<AttrShape>) -> Result<
    (nat, Seq<(Seq<char>, nat)>),
    DeriveError,
> {
    match attrs_outcome(attrs) {
        Err(e) => Err(DeriveError::Attr(e)),
        Ok(g) => scan(vs, g, 0, None, Seq::empty()),
    }
}

/// The positions in a layout fit the variants: the catch-all position holds a
/// one-field tuple variant and each unit position a unit variant.
pub open spec fn layout_fits(vs: Seq<VariantShape>, m: (nat, Seq<(Seq<char>, nat)>)) -> bool {
    &&& m.0 < vs.len()
    &&& (vs[m.0 as int].fields matches FieldsShape::Unnamed(tys) && tys@.len() == 1)
    &&& forall|j: int|
        0 <= j < m.1.len() ==> #[trigger] m.1[j].1 < vs.len() && vs[m.1[j].1 as int].fields is Unit
}

proof fn lemma_scan_fits(
    vs: Seq<VariantShape>,
    global: Option<Casing>,
    i: nat,
    catchall: Option<nat>,
    units: Seq<(Seq<char>, nat)>,
)
    requires
        catchall matches Some(c) ==> layout_fits(vs, (c, units)),
        forall|j: int|
            0 <= j < units.len() ==> #[trigger] units[j].1 < vs.len() && vs[units[j].1 as int].fields is Unit,
    ensures
        scan(vs, global, i, catchall, units) matches Ok(m) ==> layout_fits(vs, m),
    decreases vs.len() - i,
{
    if i < vs.len() {
        match vs[i as int].fields {
            FieldsShape::Unit => match unit_name(vs[i as int], global) {
                Err(e) => {},
                Ok(n) => {
                    let next = units.push((n, i));
                    assert forall|j: int| 0 <= j < next.len() implies #[trigger] next[j].1 < vs.len()
                        && vs[next[j].1 as int].fields is Unit by {
                        if j < units.len() {
                            assert(next[j] == units[j]);
                        }
                    }
                    lemma_scan_fits(vs, global, i + 1, catchall, next);
                },
            },
            FieldsShape::Unnamed(tys) => {
                if tys@.len() == 1 && catchall is None {
                    lemma_scan_fits(vs, global, i + 1, Some(i), units);
                }
            },
            FieldsShape::Named => {},
        }
    }
}

/// Finds the single catch-all variant and names the unit variants.
pub fn lookup_variants_and_catchall(variants: &Vec<VariantShape>, attrs: &Vec<AttrShape>) -> (r:
    Result<Layout, DeriveError>)
    ensures
        match (r, spec_layout(variants@, attrs@)) {
            (Ok(l), Ok(m)) => l@ == m,
            (Err(a), Err(b)) => a == b,
            _ => false,
        },
        r matches Ok(l) ==> layout_fits(variants@, l@),
{
    proof {
        lemma_scan_fits(variants@, attrs_outcome(attrs@)->Ok_0, 0, None, Seq::empty());
    }
    let global = match Casing::try_from_attrs(attrs) {
        Ok(g) => g,
        Err(e) => {
            return Err(DeriveError::Attr(e));
        },
    };
    let mut catchall: Option<usize> = None;
    let mut units: Vec<UnitVariant> = Vec::new();
    let mut i: usize = 0;
    assert(units_view(units@) =~= Seq::empty());
    while i < variants.len()
        invariant
            i <= variants@.len(),
            spec_layout(variants@, attrs@) == scan(
                variants@,
                global,
                i as nat,
                match catchall {
                    Some(c) => Some(c as nat),
                    None => None,
                },
                units_view(units@),
            ),
        decreases variants@.len() - i,
    {
        let var = &variants[i];
        match &var.fields {
            FieldsShape::Unit => {
                let local = match Casing::try_from_attrs(&var.attrs) {
                    Ok(l) => l,
                    Err(e) => {
                        return Err(DeriveError::Attr(e));
                    },
                };
                let name = match local {
                    Some(c) => c.apply(var.ident.as_str()),
                    None => match global {
                        Some(c) => c.apply(var.ident.as_str()),
                        None => var.ident.clone(),
                    },
                };
                let ghost before = units@;
                units.push(UnitVariant { name, index: i });
                assert(units_view(units@) =~= units_view(before).push((name@, i as nat)));
            },
            FieldsShape::Unnamed(tys) => {
                if tys.len() != 1 {
                    return Err(DeriveError::CatchallFieldCount);
                }
                if catchall.is_some() {
                    return Err(DeriveError::DuplicateCatchall);
                }
                catchall = Some(i);
            },
            FieldsShape::Named => {
                return Err(DeriveError::NamedFields);
            },
        }
        i = i + 1;
    }
    match catchall {
        None => Err(DeriveError::MissingCatchall),
        Some(c) => Ok(Layout { catchall: c, units }),
    }
}

} // verus!
