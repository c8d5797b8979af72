//! PromptForge: the decisions behind a system-tray prompt enhancer.
//!
//! The library holds the logic of the program: the text rules, the project
//! store, the capture/replace round trip driven as a state machine, the
//! placement of the status pill, and the composition of the requests sent to
//! the language model. Everything that touches the desktop, the network or
//! the disk is performed by the caller, which feeds the results back in.

pub mod text;
pub mod clock;
pub mod projects;
pub mod platform;
pub mod keys;
pub mod status_window;
pub mod clipboard;
pub mod pipeline;
pub mod enhance;
pub mod tray;
