//! Host-side binding core for an embedded browser engine.
//!
//! The engine itself lives behind a foreign-function boundary and is driven by
//! unverified glue; this crate holds the logic that boundary is wrapped in:
//! process-role detection and argument marshalling, the one-runtime-per-process
//! registry, the message-loop strategy selection, the runtime and surface
//! lifecycle state machines with their teardown ordering, input-event
//! dispatch with the cursor-position cache, and the single-slot wake-on-write
//! box that adapts engine callbacks to task suspension.

pub mod args;
pub mod errors;
pub mod keyboard;
pub mod loops;
pub mod page;
pub mod promise;
pub mod registry;
pub mod request_handler;
pub mod runtime;
pub mod webview;
