//! Batch orchestration for text-to-speech synthesis: request validation, the
//! session that drives model calls and saves, slot trimming and file naming.
pub mod names;
pub mod batch;
pub mod config;
pub mod session;
pub mod commands;
