pub mod create_template;
pub mod edit_single_category;
pub mod fill_template;
