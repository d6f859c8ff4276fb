//! Verified core of a screenshot annotation tool: the editor's undo/redo
//! history, tool and shortcut decisions, cropping, and the commands and
//! texts of the hotkey installer, the screen-capture fallbacks and the
//! command line.

pub mod capture;
pub mod cli;
pub mod command;
pub mod crop;
pub mod editor;
pub mod gsettings;
pub mod history;
pub mod raster;
pub mod hotkey;
pub mod text;

pub use editor::Tool;
pub use history::History;
