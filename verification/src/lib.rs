//! Per-speaker conversational audio pipeline for a voice assistant that
//! listens to many speakers at once and talks to one of them at a time.
//!
//! The crate holds the decisions of that pipeline: how packets are queued
//! into frames, when a session may start listening, when an utterance ends,
//! and who owns the assistant's attention. Waiting, locking and playback are
//! left to the caller.

pub mod actions;
pub mod assistant;
pub mod discord;
pub mod listener;
pub mod resampler;
pub mod room;
