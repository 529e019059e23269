//! The names most callers need.

pub use crate::common::config::Config;
pub use crate::common::error::Error;
pub use crate::crawler::Crawler;
pub use crate::crawler::CrawlerBuilder;
