//! The worker: renders frames with Blender and reports progress.

pub mod messages;
pub mod blender;
pub mod worker_state;
pub mod executor;
pub mod ws;
pub mod http;
