//! Window logic, layout rules and command preparation of j3DevHelper, with their contracts.

use vstd::prelude::*;

pub mod arguments;
pub mod button_scroll;
pub mod command_buttons;
pub mod command_line;
pub mod command_steps;
pub mod dialogs;
pub mod drop;
pub mod execution;
pub mod fonts;
pub mod geometry;
pub mod language;
pub mod layout;
pub mod menu;
pub mod message_params;
pub mod model;
pub mod rules;
pub mod scaling;
pub mod text;
pub mod theme;
pub mod tree;
pub mod wide;
pub mod workspace_dialog;

verus! {

} // verus!
