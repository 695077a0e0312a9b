//! Decision logic for a global mouse-input interceptor that switches
//! virtual workspaces on secondary-button presses.
//!
//! The library classifies each delivered event (pass it through, suppress
//! it, trigger a workspace switch), builds the event mask handed to the OS
//! at registration, sequences the setup steps, and selects the automation
//! script for a switch. The OS-facing glue — the interception point itself,
//! the delivery loop, and the external scripting process — lives outside the
//! library and only carries plain values to and from it.

pub mod event;
pub mod mask;
pub mod script;
pub mod setup;
