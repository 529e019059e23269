//! Crawl scheduling and politeness for a web crawler: a bounded,
//! deduplicating frontier, a per-domain rate limiter, a robots policy
//! cache, and the worker decisions that tie them together.
//!
//! Nothing in this crate touches the network or the clock. The caller
//! fetches, sleeps and reads the time, and hands the crate what it found;
//! the crate decides. Times are milliseconds on a clock of the caller's
//! choosing.
//!
//! # What is proved, and what is taken on trust
//!
//! Every function is verified against its contract, except five small
//! functions that call code from elsewhere and whose contracts are
//! believed:
//!
//! - in [`common::text`], the calls of `str::to_lowercase` and
//!   `String::push`;
//! - in [`crawler::address`], the calls of `Url::parse` and `Url::join`
//!   of the `url` crate;
//! - in [`crawler::parser`], the call of the `scraper` crate's document
//!   parser and selectors.
//!
//! What these return is given a name, and the contracts of the functions
//! that build on them speak of those names.

pub mod common;
pub mod crawler;
pub mod prelude;

pub use common::config::Config;
pub use common::error::Error;
