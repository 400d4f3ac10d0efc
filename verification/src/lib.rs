//! A uniform interface to remote quantum compute backends.
//!
//! The library decides; the caller sends. Every operation on a backend is
//! split into the request to send, as a plain value, and the reading of the
//! reply that came back, so that what is sent and what is made of the answer
//! are both stated exactly.
//!
//! - [`models`]: the canonical vocabulary: task states, payloads, failures,
//!   sessions.
//! - [`middleware`]: the credential store and the authentication-aware retry
//!   around a request.
//! - [`retry`]: the policy by which transient failures are retried.
//! - [`polling`]: waiting for a task under a deadline.
//! - [`ionq`], [`ionq_mock`], [`pasqal`]: the adapters, each mapping its
//!   provider's words to the canonical task states.
//! - [`ionq_cloud_api`], [`pasqal_cloud_api`], [`pasqal_local_api`],
//!   [`direct_access_api`]: what each service is asked and how its replies
//!   read.
//! - [`transport`], [`json`], [`codec`], [`text`]: requests and replies,
//!   JSON documents, base64 and text, as the rest builds on them.

pub mod codec;
pub mod direct_access_api;
pub mod ionq;
pub mod ionq_cloud_api;
pub mod ionq_mock;
pub mod json;
pub mod middleware;
pub mod models;
pub mod pasqal;
pub mod pasqal_cloud_api;
pub mod pasqal_local_api;
pub mod polling;
pub mod retry;
pub mod text;
pub mod transport;
