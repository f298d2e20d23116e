//! An application shell for a retained-mode, Elm-style GUI host.
//!
//! The shell supplies the callbacks such a host requires — initialization,
//! a window title, an update step and a view — as plain functions over plain
//! values, each with a contract that pins its result down exactly. The host
//! loop itself (window creation, event dispatch, rendering) lives outside
//! this crate.

pub mod app;
pub mod message;
