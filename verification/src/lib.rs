//! Command relay for a desktop voice assistant shell.
//!
//! The relay maps a named command from a UI layer either to a canned local
//! reply or to an HTTP request aimed at a local backend, and renders the
//! ecosystem status document. The transport itself (sending the HTTP request)
//! is left to the surrounding application; this crate builds the request,
//! interprets its outcome, and proves exactly what each operation returns.

pub mod relay;
pub mod status;
pub mod text;
