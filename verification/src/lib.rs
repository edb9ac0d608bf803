//! Lifecycle supervision for a locally spawned HTTP backend process.
//!
//! The crate holds the decisions of a desktop shell that runs one backend
//! server as a child process: where the runtime executable and the server's
//! entry script are looked for, how a health probe is classified, when a child
//! is spawned, reused or terminated, and how its output is recorded. Every
//! function takes what was observed of the machine as plain values and says
//! what is to be done next; spawning, killing, probing and file access are
//! left to the caller.
//!
//! Beside the supervisor the crate knows the standard layout of a project
//! folder and writes the readme that describes it.

pub mod clock;
pub mod diagnostics;
pub mod error;
pub mod laws;
pub mod locator;
pub mod logger;
pub mod path;
pub mod probe;
pub mod readme;
pub mod scaffold;
pub mod shutdown;
pub mod supervisor;
pub mod text;
