//! The controller: keeps the list of jobs, hands out workers and keeps
//! its websocket listeners up to date.

pub mod messages;
pub mod coordinator;
pub mod worker_client;
pub mod ws;
