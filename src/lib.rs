//! A single-user task list: an ordered sequence of short text tasks, each
//! with a completion flag, the decisions of the interactive operations on
//! it, and its two-column record store.
pub mod model;
pub mod store;
pub mod input;
pub mod flow;
