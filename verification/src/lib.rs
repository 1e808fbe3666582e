//! A pool of rendering sessions that turn HTML documents into PDF bytes.
//!
//! The crate holds the decisions of the pool, of the per-job rendering
//! protocol and of the public entry point. It performs no input or output
//! itself: every step that touches the rendering backend, the file system or
//! the clock is handed to the caller as an action, and its outcome comes back
//! as an event.

pub mod browser;
pub mod page_props;
pub mod rendering_engine;
pub mod schedule;
pub mod text;

pub use crate::rendering_engine::RenderingEngine;
