//! The decisions of a GNU Backgammon analysis daemon: which levels answer
//! which methods, what a request is answered, how native results become
//! protocol payloads, and how the command line and the install layout are
//! read. Everything here is a function on plain values; the streams, the native
//! library and the floating-point arithmetic live around it.

pub mod clock;
pub mod config;
pub mod describe;
pub mod dispatch;
pub mod engine;
pub mod evaluation;
pub mod evaluation_laws;
pub mod ffi;
pub mod json;
pub mod level_laws;
pub mod mapping;
pub mod methods;
pub mod move_laws;
pub mod moves;
pub mod notation;
pub mod notation_laws;
pub mod options;
pub mod order;
pub mod request_log;
pub mod startup_laws;
pub mod text;
