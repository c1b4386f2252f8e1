//! A modal task/project editor core: a multiline text buffer with a
//! character cursor, an id-keyed entity store, and the key-driven state
//! machine that routes input to them.

mod chars;
mod clock;
pub mod description_edit_state;
pub mod task;
pub mod project;
pub mod app_data;
pub mod view_state;
pub mod line_number;
pub mod app;
pub mod input;
pub mod workstream;
pub mod workflow_preset;
pub mod latios_types;
pub mod server;
pub mod sync;
pub mod order;
pub mod export;
