//! A directory is watched; each file dropped into it that the whitelist
//! admits is read as a job; each job goes to the processor that its
//! `processor_id` names; a failure of the job is recorded at the path that the
//! job gives. This library holds the decisions of that pipeline. Watching,
//! reading, sending and writing are its caller's part.
pub mod config;
pub mod descriptor;
pub mod error;
pub mod event;
pub mod file_watcher;
pub mod json;
pub mod pipeline;
pub mod processor;
pub mod registry;
pub mod request;
pub mod text;
pub mod whitelist;

pub use config::Config;
pub use error::Error;
pub use file_watcher::{filter_events, FileWatcher};
