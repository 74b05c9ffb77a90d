//! A verified weather query pipeline: geocode resolution, payload
//! normalization, text rendering, and a sequential orchestrator that
//! ties the stages together.
//!
//! All remote I/O lives outside this crate; the library receives plain
//! values (already-decoded replies) and decides every step of the
//! pipeline with a proved contract.

pub mod amount;
pub mod config;
pub mod errors;
pub mod fetch;
pub mod geocode;
pub mod input;
pub mod model;
pub mod normalize;
pub mod pipeline;
pub mod present;
pub mod text;
