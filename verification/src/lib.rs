//! A minimal desktop-application shell: it holds the flat state record that a
//! web UI queries and updates through a small command surface, plans the
//! one-time bootstrap of the native window host, and exposes a thin bridge
//! through which an embedding scripting runtime can launch the application.
//!
//! The window host itself, the scripting-runtime glue and all process I/O live
//! outside this crate; this crate holds the state, the decisions and the
//! contracts they obey.

pub mod bootstrap;
pub mod bridge;
pub mod state;
