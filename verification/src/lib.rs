//! Core of a snippet-storing desktop utility: a persistent snippet store
//! with substring search, a window-visibility controller that keeps a
//! tray-label mirror consistent, and an event router that dispatches
//! trigger events to both.

pub mod laws;
pub mod router;
pub mod snippet;
pub mod store;
pub mod text;
pub mod visibility;
