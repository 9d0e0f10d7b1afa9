//! Window and event handling for a desktop application: which windows are
//! open, when an input closes one, when the event loop should stop, how the
//! application icon is loaded and which surface format a window renders to.

pub mod app;
pub mod event;
pub mod icon;
pub mod surface;
