//! Interactive client for a reactive computation engine.
//!
//! The library turns a line of terminal input into a command or a unit of
//! program source, maps commands to the request/response protocol spoken
//! with the engine's run loop, renders the engine's tabular results as a
//! box-drawn grid, and aggregates batch test results.  All I/O, threading
//! and the engine itself live outside the library.

pub mod batch;
pub mod command;
pub mod protocol;
pub mod render;
pub mod table;
pub mod text;
