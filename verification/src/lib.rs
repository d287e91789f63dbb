//! Core of a minimal real-time rendering front end.
//!
//! The hard part of such a front end is not the draw call: it is the
//! frame-synchronization and swapchain-lifecycle protocol. This crate holds
//! that protocol as verified logic on plain values: which GPU objects to
//! create, which gate to wait on, how to react when the presentation surface
//! goes out of date, and in which order resources are released. The driver
//! and window-system calls themselves are performed by an unverified shell
//! that executes the requests and plans this library produces and feeds the
//! outcomes back in.
//!
//! - [`scheduler`] holds the render-loop step as a state machine: acquire,
//!   submit, present, recover, with the no-deadlock and slot-rotation
//!   invariants.
//! - [`swapchain`] decides the bundle's configuration: format, present
//!   mode, extent, image count, sharing, memory type, render target.
//! - [`setup`] decides the startup configuration: instance layers and
//!   extensions, the physical device, the queue families.
//! - [`bundle`] and [`sync`] model the owned resources and plan their
//!   creation, recording and ordered teardown.
//! - [`context`], [`error`], [`version`] and [`util`] hold the device
//!   handles, the error taxonomy, packed version numbers and name
//!   conversion.

pub mod bundle;
pub mod context;
pub mod error;
pub mod scheduler;
pub mod setup;
pub mod swapchain;
pub mod sync;
pub mod util;
pub mod version;

use vstd::prelude::*;

verus! {

/// What the windowed front end is started with: whether to enable the
/// validation layer and the debug messenger.
pub struct GameInit {
    pub debug: bool,
}

} // verus!
