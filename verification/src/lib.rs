//! Verified core of a script-driven drawing host.
//!
//! A host process owns a frame-based graphics surface and embeds a script
//! engine; scripts define global handler functions (`keydown`, `update`,
//! `render`, ...) and call a small native API (`log`, `clear`, `rectangle`).
//! The engine and the windowing toolkit are external collaborators; this
//! crate holds the logic between them, stated and proved:
//!
//! - [`native`]: argument coercion for the native drawing calls and the
//!   exact text a `log` call writes.
//! - [`slot`]: the scoped-slot frame bridge — a drawing resource is lent
//!   for one draw callback, and a generation token rejects any use outside
//!   that lending window.
//! - [`queue`]: the command-buffer frame bridge — drawing calls append
//!   deferred commands, replayed in order once a real frame resource is
//!   available.
//! - [`dispatch`]: mapping host events to handler invocations, the
//!   per-frame ordering of dispatch and draw, and the loop's phases.
//! - [`host`]: script-host decisions — when a looked-up handler is invoked,
//!   what a thrown exception prints, when the event loop may start, and the
//!   scan of leading process flags.

pub mod dispatch;
pub mod host;
pub mod native;
pub mod queue;
pub mod slot;
