//! What the library's functions are for, as laws of their calls.
//!
//! Each law speaks of what a call is given and what it gives back, in numbers, texts and plain
//! relations, and holds of every call. `call_ensures(f, args, result)` reads: calling `f` with
//! `args` may give `result`.

pub mod app;
pub mod child;
pub mod cli;
pub mod cycle;
pub mod logging;
pub mod messages;
pub mod quoting;
pub mod rotation;
pub mod service;
pub mod text;
pub mod time;
pub mod unix;
pub mod windows;
