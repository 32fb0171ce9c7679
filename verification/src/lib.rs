//! A typed client library for the Azure DevOps artifacts (packaging) REST
//! surface.
//!
//! Every operation is exposed as a request builder: the builder collects the
//! operation's parameters, and `request` assembles the full HTTP request —
//! method, URL with percent-encoded query string, headers and body — as plain
//! verified data. Sending the request over the network, and turning response
//! bytes into model values, is left to the embedding application; the
//! decision logic it needs on the way (policy chain ordering, retry
//! classification and backoff, token caching) lives here as verified state
//! machines.

pub mod artifact_details;
pub mod change_tracking;
pub mod client;
pub mod encode;
pub mod feed_management;
pub mod feed_recycle_bin;
pub mod http;
pub mod pipeline;
pub mod provenance;
pub mod recycle_bin;
pub mod retention_policies;
pub mod retry;
pub mod service_settings;
pub mod token_cache;
pub mod urlbuild;

pub use client::Client;
pub use client::ClientBuilder;
