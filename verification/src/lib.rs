//! # xwin
//! XWin is a Rust-friendly wrapper around GLFW: owned window and monitor
//! types, `Result`-based error handling, window builders and typed input.
//!
//! This crate holds the part of XWin that decides: how GLFW's codes map to
//! typed values and back, which GLFW call each operation makes and with which
//! arguments, and how each reply becomes a result. The calls themselves are
//! made by whoever runs GLFW's main thread, handed in as closures.
pub mod err;
pub mod glfw;
pub mod input;
pub mod monitor;
pub mod system;
pub mod utility;
pub mod window;

