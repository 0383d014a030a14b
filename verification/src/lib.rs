//! An OpenAI-compatible text-embedding service: the request admission and
//! execution pipeline.
//!
//! The pipeline takes one inbound request through authentication, input
//! validation, the hand-off of the CPU-bound encode call, response assembly
//! and error shaping. The embedding computation itself is an outside
//! capability; the pipeline receives its outcome as plain values and is
//! verified for every value the capability may hand back.

pub mod auth;
pub mod config;
pub mod decimal;
pub mod error;
pub mod handlers;
pub mod models;
