pub mod current;
pub mod version0;
pub mod version1;
pub mod version2;
pub mod version3;
pub mod version4;
pub mod version5;
pub mod version6;
pub mod version7;

use vstd::prelude::*;
use crate::migration::helpers::TableSpec;
use crate::migration::schema_versions::SchemaVersion;

verus! {

/// The tables that a database of the given version holds.
pub open spec fn schema_spec(v: SchemaVersion) -> Seq<TableSpec> {
    match v {
        SchemaVersion::Version0 => version0::tables_spec(),
        SchemaVersion::Version1 => version1::tables_spec(),
        SchemaVersion::Version2 => version2::tables_spec(),
        SchemaVersion::Version3 => version3::tables_spec(),
        SchemaVersion::Version4 => version4::tables_spec(),
        SchemaVersion::Version5 => version5::tables_spec(),
        SchemaVersion::Version6 => version6::tables_spec(),
        SchemaVersion::Version7 => version7::tables_spec(),
    }
}

} // verus!
