//! Workspace and window navigation decisions for a macOS menu-bar helper.
//!
//! The library holds what the helper decides: which desktop the cursor is on,
//! whether a switch to the left or right is allowed, which synthetic gesture
//! events to post, which window to focus next, and how the background threads
//! react to hotkeys and cursor moves. Reading the window server and posting
//! events is left to the program around the library, which hands the values it
//! read to these functions.

pub mod text;
pub mod gestures;
pub mod workspace_switcher;
pub mod cf_utils;
pub mod window_manager;
pub mod focus;
pub mod controls;


