pub mod migration;
pub mod new_table;
pub mod payload;
pub mod row_col;
pub mod text;
pub mod helpers;
pub mod init;
pub mod components;
pub mod globals;
pub mod menu;
pub mod overlays;
pub mod error_stuff;
pub mod parsed;
pub mod ui_screens;
