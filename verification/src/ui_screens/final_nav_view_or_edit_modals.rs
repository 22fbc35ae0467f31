pub mod edit_single_template;
pub mod edit_single_text;
pub mod fill_template;
