//! Supervision of a long-running backend worker: where its files live, how it
//! is started, how its status messages move the launcher's state, and how it
//! is stopped again.
#![allow(non_camel_case_types)]

pub mod paths;
pub mod state;
pub mod listener;
pub mod terminator;
pub mod launcher;
pub mod lifecycle;
