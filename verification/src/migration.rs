pub mod helpers;
pub mod schema_versions;
pub mod schemas;
pub mod update_from_old_schema;
