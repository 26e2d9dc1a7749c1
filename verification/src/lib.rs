//! Marshalling for the native dialog entry points: text and options go in as
//! NUL-terminated buffers and C integers, replies come back as owned values.
//!
//! The crate itself calls nothing native. For each dialog a function of
//! [`call`] builds the arguments of the native entry point, and a function of
//! [`reply`] reads what that entry point returned.

pub mod call;
pub mod kinds;
pub mod reply;
pub mod split;
pub mod text;

pub use call::{
    any_contains_nul, color_chooser_dialog, filter_contains_nul, input_box, list_contains_nul,
    list_dialog, message_box, open_file_dialog, open_file_dialog_multi, password_box,
    save_file_dialog, save_file_dialog_with_filter, select_folder_dialog, ColorChooserCall,
    InputBoxCall, ListDialogCall, MessageBoxCall, OpenFileCall, SaveFileCall, SelectFolderCall,
};
pub use kinds::{BoxButton, DefaultColorValue, Icon, MessageBox};
pub use reply::{color_reply, first_path_reply, paths_reply, split_paths, text_reply};
pub use text::{contains_nul, read_text, CText};
