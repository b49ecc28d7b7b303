//! Core of a periodic command runner: it repeatedly executes a fixed command,
//! shows the captured output (plainly or inside a bordered terminal panel),
//! and sleeps between cycles in small interruptible slices until the user
//! interrupts it.
//!
//! The library holds the verified logic: the slice arithmetic of the delay,
//! the model of a command and its captured result, the render plan that a
//! terminal backend replays, and the watch-loop state machine. Argument
//! parsing, signal hookup, process spawning and the raw terminal primitives
//! are collaborators that live outside of it.

pub mod command;
pub mod digits;
pub mod interval;
pub mod render;
pub mod signal;
pub mod watch;
