//! A workload harness for a Lobsters-style social-news backend: it primes the
//! target database with users, stories and comments, sustains a target request
//! rate drawn from empirically shaped distributions, and records per-request-kind
//! latency histograms for warmup and measurement windows.
//!
//! This crate holds the verified core: the slug codec, the request model, the
//! histogram-shaped samplers, the priming plan with its barrier placement, the
//! issuer's admission and phase-accounting state machine, and the generator's
//! pacing and request-mix decisions. Thread spawning, channels and clocks live
//! in the unverified driver around the library.

pub mod command;
pub mod generator;
pub mod harness;
pub mod issuer;
pub mod request;
pub mod sampler;
pub mod slug;
