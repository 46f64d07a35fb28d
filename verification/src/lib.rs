//! The runtime core of a small real-time application framework.
//!
//! The crate decides; a platform shell performs. Every function here works on
//! plain values: window identities are integers, platform events arrive as
//! [`runtime::Event`] values, and whatever has to happen on the platform side
//! leaves the runtime as a sequence of [`window::Command`] values. A shell
//! around the crate owns the native windows and graphics contexts, feeds the
//! events in and carries the commands out, in the order in which they were
//! planned. The behaviors are the crate's own to call: the runtime updates
//! them once at the end of every turn of the event loop.
//!
//! * [`behavior`]: the ordered registry of user behaviors and its
//!   start/update dispatch.
//! * [`window`]: the window record and the commands it plans.
//! * [`registry`]: the records of the live windows, keyed by identity.
//! * [`runtime`]: the `init`, `create_window`, event and `run` state machine.
//! * [`display`]: what a window, its context and its surface are asked for,
//!   and the choice of a framebuffer configuration.
//! * [`error`]: the typed failures.

pub mod behavior;
pub mod display;
pub mod error;
pub mod registry;
pub mod runtime;
pub mod window;
