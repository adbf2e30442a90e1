//! Analysis behind a derive that builds a command-line value parser for an
//! enum made of named unit variants and one catch-all variant.
//!
//! The derive reads the enum into plain shapes ([`VariantShape`],
//! [`AttrShape`], [`TypeShape`]); this crate decides from them which string
//! selects each unit variant, where the catch-all variant stands, how the
//! catch-all is shown among the possible values, and, when the parser runs,
//! which unit variant a value names.

mod casing;
mod layout;
mod parser;

pub use casing::{AttrIssue, AttrShape, Casing};
pub use layout::{
    catchall_type_name, lookup_variants_and_catchall, DeriveError, FieldsShape, Layout, TypeShape,
    UnitVariant, VariantShape,
};
pub use parser::{parser_ident, possible_values, select_unit, typed_value_parser_plan, ParserPlan};
