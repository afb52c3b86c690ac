//! A two-step file clipboard: a file is marked for copy or move, and a later
//! invocation pastes it. The library holds the decisions of both steps; the
//! program around it performs the probes, the storage and the transfer.

pub mod path;
pub mod clipboard;
pub mod model;
