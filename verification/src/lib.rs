//! Core logic of a small render farm: a controller that hands out worker
//! machines and tracks jobs, and workers that drive Blender and report
//! per-frame progress.
//!
//! Everything that decides or computes lives here, with contracts; the
//! actor system, HTTP/websocket servers and process handling stand outside
//! and feed these functions plain values.

pub mod text;
pub mod uuid_gen;
pub mod websocket;
pub mod controller;
pub mod worker;
pub mod utils;
