//! Core job-dispatch protocol of a hardware security module runtime.
//!
//! Client code issues cryptographic operation requests through an `Api`
//! handle; worker units drain those requests from a channel, execute them,
//! and answer with a correlated response. The channel abstraction is the
//! small contract in [`channel`]; the shared message vocabulary lives in
//! [`jobs`].

pub mod api;
pub mod channel;
pub mod jobs;
pub mod rng_worker;
