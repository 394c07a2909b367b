//! Tray-menu dispatch logic for a desktop shell.
//!
//! The library models the one structural pattern of the shell layer: a
//! declarative menu-to-action dispatch table. A fixed, closed set of six menu
//! identifiers is parsed into a tagged variant, mapped to exactly one action
//! (show the main window, hide it, send it a named notification, or terminate
//! the process), and applied to an observed window state. Window lookup is
//! fallible by design: when no window named "main" exists, every
//! window-directed action is silently skipped.
//!
//! The host shell owns the actual tray icon, the window handles and the event
//! loop; it asks this library what to do for each clicked identifier and then
//! performs the returned action.

pub mod ids;
pub mod dispatch;
pub mod menu;
