//! A bridge that lets a single-threaded host issue commands against
//! long-lived resources owned by worker loops on a background executor.

pub mod channel;
pub mod cmds;
pub mod config;
pub mod datetime;
pub mod error;
pub mod task;
pub mod worker;
