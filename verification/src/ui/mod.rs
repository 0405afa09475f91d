//! The computations behind the screen: truncating text to columns, cursor
//! columns in input fields, dialog placement and the screen layout.

pub mod dialog;
pub mod help;
pub mod layout;
pub mod pane;
