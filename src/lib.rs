//! Job scheduling, progress parsing and protocol logic for a local
//! video-transcode daemon.

pub mod deps;
pub mod deps_tracker;
pub mod job;
pub mod messages;
pub mod paths;
pub mod persist;
pub mod pipeline;
pub mod probe;
pub mod progress;
pub mod queue;
pub mod server;
pub mod settings;
pub mod stats;
pub mod status;
mod system;
pub mod text;
pub mod ui_state;
