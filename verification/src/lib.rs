//! Ingestion and scheduling core of a video catalog: play-list parsing,
//! catalog merging, task progress tracking and recurring collection runs.

pub mod batch_delete;
pub mod catalog;
pub mod collect;
pub mod dto;
pub mod picture;
pub mod merge;
pub mod models;
pub mod playlist;
pub mod progress;
pub mod registry;
pub mod remote;
pub mod requests;
pub mod scheduler;
pub mod text;
pub mod token;
