//! Core model and text-layout logic of the ewin terminal text editor.
pub mod buf;
pub mod buf_edit;
pub mod cfg;
pub mod cfg_setting;
pub mod cfg_user;
pub mod clipboard;
pub mod char_style;
pub mod cmd;
pub mod colors;
pub mod convert;
pub mod def;
pub mod draw_range;
pub mod edit;
pub mod edit_cmd;
pub mod edit_plan;
pub mod files;
pub mod fmt_xml;
pub mod header;
pub mod history;
pub mod input_comple;
pub mod keycmd;
pub mod keymap;
pub mod keys;
pub mod lang;
pub mod log;
pub mod model;
pub mod mouse;
pub mod scroll;
pub mod text;
pub mod util;
pub mod window;
