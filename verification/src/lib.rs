pub mod layout;
pub mod text;
pub mod layout_format;
pub mod vt_rows;
pub mod flags;
pub mod session;
pub mod target;
pub mod render;
pub mod mode;
pub mod text_map;
pub mod wait;
pub mod env;
pub mod state;
pub mod search;
pub mod layout_string;
pub mod winlinks;
pub mod alerts;
