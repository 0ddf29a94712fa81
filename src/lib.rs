//! Live resource browser core for a container-orchestration cluster: health
//! classification of status strings, the resource item model, per-kind status
//! extraction, and the watch engine's per-task state machine together with the
//! coordinator that merges every kind's first listing into one sorted batch.
pub mod text;
pub mod items;
pub mod watch;
pub mod coordinator;
pub mod objects;
pub mod resources;
pub mod cli;
pub mod actions;
pub mod session;
