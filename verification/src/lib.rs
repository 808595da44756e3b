//! Core of a small cross-platform GUI application: the state owned by the
//! application's event loop, the dispatch rules that mutate it, the texts
//! produced when a file is opened, and the payloads produced when the
//! message is saved.
//!
//! Everything that decides or computes lives here and is verified; the
//! window, the graphics context, the dialogs and the event loop itself are
//! driven by an unverified shell around this crate.

pub mod datauri;
pub mod dispatch;
pub mod openfile;
pub mod platform;
pub mod state;
