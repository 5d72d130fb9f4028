//! Verified core of the tree-cleaner terminal interface.

pub mod clock;
pub mod command_line;
pub mod commands;
pub mod configuration;
pub mod diagnostics;
pub mod dialogs;
pub mod display;
pub mod explorer;
pub mod explorer_rows;
pub mod formatting;
pub mod headless;
pub mod keys;
pub mod log_history;
pub mod marks;
pub mod model;
pub mod navigation;
pub mod notice;
pub mod operation;
pub mod ordering;
pub mod panels;
pub mod paths;
pub mod preferences;
pub mod reports;
pub mod requests;
pub mod screen;
pub mod screen_keys;
pub mod settings;
pub mod settings_keys;
pub mod text;
pub mod theme;
pub mod tree_updates;
