//! Chronos: verified core logic of a local-first screen context engine.

pub mod error;
pub mod models;
pub mod ring_buffer;
pub mod capture_loop;
pub mod pipeline;
pub mod text;
pub mod time_text;
pub mod handlers;
pub mod inference;
pub mod capture;
pub mod ulid_text;
pub mod log_record;
pub mod cli;
