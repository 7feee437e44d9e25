//! Synchronization engine of a certificate bridge: it validates a request,
//! decodes the key material that a secret store holds, finds or creates the
//! HTTPS terminator of a load balancer, and installs the material on it, with
//! bounded retries round the two remote steps.
//!
//! The engine performs no I/O. Each remote step is an action that the engine
//! hands out and an event that it takes back.
//!
//! - `request`: sync requests and their validation.
//! - `retry`: the retry executor, a state machine of attempts and waits.
//! - `secret`: key material, read out of what the secret store answered.
//! - `terminator`: the terminator among the listed configs, and the write
//!   that installs the material on it.
//! - `sync`: one synchronization from request to outcome.
//! - `guarantees`: what holds of every run of the engine.
//! - `health`: the health reports of the service round the engine.
//! - `codec`: the decoders that are called and not verified.
//! - `search`: the first element of a sequence with a given property.

pub mod codec;
pub mod guarantees;
pub mod health;
pub mod request;
pub mod retry;
pub mod search;
pub mod secret;
pub mod sync;
pub mod terminator;
