//! A windowing and system-tray library: a handle-keyed callback registry
//! driven by a single-threaded message pump, and a tray application whose
//! menu, callback table and lifecycle are tracked per item index.
//!
//! The library holds the decision logic: registries, callback tables, the
//! pump's reconciliation step and the tray state machine. The operating
//! system's windows, menus and message loops live outside it; the surrounding
//! program hands their outcomes in as plain values.

pub mod app;
pub mod error;
pub mod event;
pub mod geometry;
pub mod table;
pub mod tray;
pub mod util;
pub mod window;
