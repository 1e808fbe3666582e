//! The pool of rendering sessions and its slots.

pub mod browser;
pub mod tab;
