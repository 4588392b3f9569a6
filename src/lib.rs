//! A small embedding host for a script engine: the decisions it makes around
//! the engine, stated and proved. The engine itself, the file system and the
//! output streams are driven by the program around this library.

pub mod bridge;
pub mod engine;
pub mod error_info;
pub mod exception;
pub mod logger;
pub mod text;
