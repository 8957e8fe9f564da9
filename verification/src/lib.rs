//! Relevance ranking for articles gathered from several remote sources.
//!
//! The crate holds the decision logic of a fetch / retry / score / rank
//! pipeline together with machine-checked contracts: how a list of
//! keywords is matched against article text, how matched articles are
//! ordered, when a failed request is retried and for how long the caller
//! backs off, and how partial failures of targets and sources are absorbed.
//! Everything that touches the network or a clock is left to the caller,
//! which feeds the outcomes of that work back in as plain values.

pub mod model;
pub mod text;
pub mod error;
pub mod config;
pub mod metrics;
pub mod matcher;
pub mod analyzer;
pub mod retry;
pub mod ranker;
pub mod fetcher;
pub mod hacker_news;
pub mod rust_blog;
pub mod rate_limiter;
