//! A greeting screen whose button opens a dialog that asks for a name.
//!
//! Two components, each an `init` / `update` / `render` triple over its own
//! state: the application, and the name-input dialog that it mounts while its
//! dialog mode is `InputName`. The dialog speaks to its parent only through
//! outcomes, which the parent maps to its own messages. `runtime` holds the
//! mounted tree and dispatches one message at a time; `html` is the
//! declarative tree that both components render.
pub mod application;
pub mod html;
pub mod input_name_dialog;
pub mod runtime;
