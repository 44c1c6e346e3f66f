//! Settings persistence for a desktop file-cleaning tool: a line-oriented,
//! hand-editable settings file, its tolerant reader, its canonical writer and
//! the platform defaults, together with the small text helpers they rest on.

pub mod defaults;
pub mod help_functions;
pub mod items;
pub mod laws;
pub mod reader;
pub mod saving_loading;
pub mod settings;
pub mod text;
pub mod text_laws;
pub mod writer;
