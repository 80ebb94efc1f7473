//! The core of a desktop launcher that runs small automation scripts: which
//! host operations a script may reach, how each of them is carried out on the
//! three supported systems, how the launcher waits for a process or a window,
//! and when it lets a script run a command or end the launcher.
//!
//! But for looking up the user's configuration directory, nothing here
//! touches the operating system. Every function takes plain values and
//! returns plain values; the program around the library performs the
//! commands it plans and hands the outcomes back.

pub mod calls;
pub mod games;
pub mod gate;
pub mod icons;
pub mod inspector;
pub mod invocation;
pub mod output;
pub mod platform;
pub mod registry;
pub mod runner;
pub mod storage;
pub mod text;
pub mod wait;
