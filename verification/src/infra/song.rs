//! Storage of songs.

pub mod memory_repository;
