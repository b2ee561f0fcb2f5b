//! Driving a fuzzing engine through cargo: the project layout, the manifest
//! rules, the command lines, and the pool of workers that runs them.
//!
//! Nothing here touches the file system or starts a process. A driver reads
//! files, spawns processes and forwards bytes; this crate decides what is to
//! be read, spawned, printed and killed, and every decision has a contract.

pub mod command;
pub mod jobs;
pub mod launch;
pub mod manifest;
pub mod multiplex;
pub mod nesting;
pub mod paths;
pub mod pool;
pub mod process;
pub mod project;
pub mod templates;
pub mod text;
