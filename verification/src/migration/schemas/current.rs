use vstd::prelude::*;
use crate::migration::helpers::{ADbTable, tables_view};
use crate::migration::schema_versions::{CURRENT_VERSION, SchemaVersion};
use crate::migration::schemas::{
    schema_spec, version0, version1, version2, version3, version4, version5, version6, version7,
};

verus! {

/// The tables of the current schema, as a fresh database gets them.
pub fn entire_table() -> (tables: Vec<ADbTable>)
    ensures
        tables_view(tables@) == schema_spec(CURRENT_VERSION),
{
    match CURRENT_VERSION {
        SchemaVersion::Version0 => version0::entire_table(),
        SchemaVersion::Version1 => version1::entire_table(),
        SchemaVersion::Version2 => version2::entire_table(),
        SchemaVersion::Version3 => version3::entire_table(),
        SchemaVersion::Version4 => version4::entire_table(),
        SchemaVersion::Version5 => version5::entire_table(),
        SchemaVersion::Version6 => version6::entire_table(),
        SchemaVersion::Version7 => version7::entire_table(),
    }
}

} // verus!
