//! Host-side state and decisions behind two toolkit subclasses: a cell
//! renderer that draws a line of text, and an application class whose
//! window-added and window-removed virtual functions dispatch to the
//! implementation and by default chain up to the parent class.
//!
//! Everything that touches the native object system stays with the caller;
//! this crate holds the values those calls are made with.

pub mod cell_renderer;
pub mod application;
