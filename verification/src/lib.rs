//! Feed synthesized gamepad reports to a remote-play host from live mouse
//! and keyboard state.
//!
//! The crate models the host-facing core of the tool: the 64-byte controller
//! report codec, the raw-input capture state machine, the import-table walk
//! that locates and patches a module's import slots, and the mapper that turns
//! captured input into report mutations. The operating-system boundary (window
//! handles, file handles, raw memory) is represented by plain values; the thin
//! layer that talks to the OS lives outside this crate and hands those values
//! in.

pub mod ds4;
pub mod hooks;
pub mod mapper;
pub mod raw_input;
pub mod text;
pub mod wndproc;
