//! The logic of a desktop shell: the registry of its top-level windows, the
//! routing of window events to the controller that owns each window, the
//! per-icon render cache, the reconciliation of the running-task list, the
//! power countdown and the start-menu tree.
//!
//! Nothing here touches the windowing host or the devices. Every controller is
//! a function from its state and a message to its next state and a batch of
//! [`effect::Effect`]s for the host to carry out.

pub mod cache;
pub mod desktop;
pub mod device;
pub mod effect;
pub mod icon_cache;
pub mod icons;
pub mod names;
mod order;
pub mod panel_menu;
pub mod power;
pub mod raw_icons;
pub mod shell;
pub mod start_menu;
pub mod tasks;
pub mod views;
pub mod window;
pub mod windows_icons;
