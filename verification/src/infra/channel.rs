//! Storage of channels.

pub mod memory_repository;
pub mod postgresql_repository;
