//! Storage of videos.

pub mod memory_repository;
