//! The rendering backend as the pool sees it: failures, tickets and the
//! containers that hold the pool and its slots.

pub mod containers;
pub mod result;
pub mod ticket;
