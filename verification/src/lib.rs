//! A dropdown box for egui: an editable value with a popup of candidate
//! items below it, narrowed by what has been typed so far.
//!
//! The value may be any type that can draw itself and name itself as text;
//! a plain `String` and a chip buffer are provided.

pub mod chip;
pub mod dropdown;
pub mod editable;
pub mod filter;
pub mod host;

pub use dropdown::{DropDownBox, DropDownOutput, Turn};
pub use editable::{Editable, EditableResponse};
