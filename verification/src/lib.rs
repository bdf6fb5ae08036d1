//! A verified composer for the navigation bar of a device-management GUI.
//!
//! The library turns the application's current state — the connected devices,
//! the selected device, the loading status of the app list, and the status of
//! the self-update check — into a toolkit-neutral, ordered description of the
//! controls the bar shows. The mapping is pure: it has exact contracts over
//! spec-level views, and the host's rendering adapter consumes the description.

pub mod compose;
pub mod controls;
pub mod state;

pub use compose::nav_menu;
