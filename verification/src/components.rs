pub mod category_picker_popup;
pub mod shortcut_picker;
pub mod top_menu;
