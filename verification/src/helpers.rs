pub mod category;
pub mod read;
pub mod search;
pub mod shortcuts;
pub mod edit;
pub mod error_log;
pub mod export;
pub mod import;
pub mod new_row;
pub mod popularity;
pub mod project;
