use vstd::prelude::*;

verus! {

/// The versions that the database schema has gone through, oldest first.
#[derive(PartialEq, Eq, Structural, Clone, Copy, Debug)]
pub enum SchemaVersion {
    Version0,
    Version1,
    Version2,
    Version3,
    Version4,
    Version5,
    Version6,
    Version7,
}

/// The schema that a fresh database is created with.
pub const CURRENT_VERSION: SchemaVersion = SchemaVersion::Version7;

/// The number under which a version is stored in the `schema_version` table.
pub open spec fn version_number(v: SchemaVersion) -> int {
    match v {
        SchemaVersion::Version0 => 0,
        SchemaVersion::Version1 => 1,
        SchemaVersion::Version2 => 2,
        SchemaVersion::Version3 => 3,
        SchemaVersion::Version4 => 4,
        SchemaVersion::Version5 => 5,
        SchemaVersion::Version6 => 6,
        SchemaVersion::Version7 => 7,
    }
}

/// The version stored under a number, if any.
pub open spec fn version_of_number(n: int) -> Option<SchemaVersion> {
    if n == 0 {
        Some(SchemaVersion::Version0)
    } else if n == 1 {
        Some(SchemaVersion::Version1)
    } else if n == 2 {
        Some(SchemaVersion::Version2)
    } else if n == 3 {
        Some(SchemaVersion::Version3)
    } else if n == 4 {
        Some(SchemaVersion::Version4)
    } else if n == 5 {
        Some(SchemaVersion::Version5)
    } else if n == 6 {
        Some(SchemaVersion::Version6)
    } else if n == 7 {
        Some(SchemaVersion::Version7)
    } else {
        None
    }
}

impl SchemaVersion {
    pub fn to_int(self) -> (n: i64)
        ensures
            n == version_number(self),
    {
        match self {
            SchemaVersion::Version0 => 0,
            SchemaVersion::Version1 => 1,
            SchemaVersion::Version2 => 2,
            SchemaVersion::Version3 => 3,
            SchemaVersion::Version4 => 4,
            SchemaVersion::Version5 => 5,
            SchemaVersion::Version6 => 6,
            SchemaVersion::Version7 => 7,
        }
    }

    pub fn from_int(v: i64) -> (r: Option<Self>)
        ensures
            r == version_of_number(v as int),
            r is Some <==> 0 <= v <= 7,
    {
        match v {
            0 => Some(SchemaVersion::Version0),
            1 => Some(SchemaVersion::Version1),
            2 => Some(SchemaVersion::Version2),
            3 => Some(SchemaVersion::Version3),
            4 => Some(SchemaVersion::Version4),
            5 => Some(SchemaVersion::Version5),
            6 => Some(SchemaVersion::Version6),
            7 => Some(SchemaVersion::Version7),
            _ => None,
        }
    }
}

/// Reading back the number that a version is stored under gives that version.
pub proof fn law_version_number_round_trip(v: SchemaVersion)
    ensures
        version_of_number(version_number(v)) == Some(v),
        0 <= version_number(v) <= version_number(CURRENT_VERSION),
{
}

/// A number that names a version is the number that version is stored under.
pub proof fn law_number_version_round_trip(n: int)
    ensures
        version_of_number(n) matches Some(v) ==> version_number(v) == n,
{
}

} // verus!
