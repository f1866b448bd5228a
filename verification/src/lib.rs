//! Persistent-buffering core of an embedded audio looper.
//!
//! A recording whose length vastly exceeds working memory is paged between a
//! small in-memory pool and slow block storage. The hard-real-time audio
//! cycle drives a non-blocking [`manager::Manager`], which owns a per-cassette
//! [`buffer::Buffer`] state machine, completes pending page loads, forwards
//! audio blocks, and evicts full pages — persisting them over bounded,
//! non-blocking channels when they were written while recording was armed.

pub mod buffer;
pub mod cassette;
pub mod channels;
pub mod config;
pub mod manager;
pub mod page;
pub mod pool;
pub mod status;
