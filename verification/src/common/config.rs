//! Settings of the whole application, with their defaults.

use crate::common::error::Error;
use vstd::prelude::*;

verus! {

/// All settings.
#[derive(Debug)]
pub struct Config {
    pub crawler: CrawlerConfig,
    pub storage: StorageConfig,
    pub search: SearchConfig,
    pub api: ApiConfig,
}

/// Settings of the crawler.
#[derive(Debug)]
pub struct CrawlerConfig {
    /// Maximum number of concurrent requests
    pub max_concurrent_requests: usize,
    /// Maximum crawl depth
    pub max_depth: usize,
    /// Request timeout in seconds
    pub timeout_seconds: u64,
    /// User agent string
    pub user_agent: String,
    /// Default delay between requests to the same domain (milliseconds)
    pub default_delay_ms: u64,
    /// Maximum retries for failed requests
    pub max_retries: u32,
    /// Maximum page size in bytes
    pub max_page_size: usize,
    /// Number of worker threads
    pub num_workers: usize,
}

/// Where pages and the index are kept.
#[derive(Debug)]
pub struct StorageConfig {
    /// Storage directory path
    pub storage_path: String,
    /// Index directory path
    pub index_path: String,
}

/// Settings of the search.
#[derive(Debug)]
pub struct SearchConfig {
    /// Maximum results per query
    pub max_results: usize,
    /// Default result limit
    pub default_limit: usize,
    /// Enable snippet generation
    pub enable_snippets: bool,
    /// Snippet length
    pub snippet_length: usize,
}

/// Settings of the query API.
#[derive(Debug)]
pub struct ApiConfig {
    /// API server host
    pub host: String,
    /// API server port
    pub port: u16,
    /// Enable CORS
    pub enable_cors: bool,
    /// API rate limit (requests per minute)
    pub rate_limit: u32,
}

impl Config {
    /// Whether these are the default settings.
    pub open spec fn is_default(&self) -> bool {
        &&& self.crawler.max_concurrent_requests == 100
        &&& self.crawler.max_depth == 5
        &&& self.crawler.timeout_seconds == 30
        &&& self.crawler.user_agent@ == "RustCrawler/0.1.0"@
        &&& self.crawler.default_delay_ms == 1000
        &&& self.crawler.max_retries == 3
        &&& self.crawler.max_page_size == 10 * 1024 * 1024
        &&& self.crawler.num_workers == 8
        &&& self.storage.storage_path@ == "./data/storage"@
        &&& self.storage.index_path@ == "./data/index"@
        &&& self.search.max_results == 1000
        &&& self.search.default_limit == 10
        &&& self.search.enable_snippets
        &&& self.search.snippet_length == 200
        &&& self.api.host@ == "127.0.0.1"@
        &&& self.api.port == 8080
        &&& self.api.enable_cors
        &&& self.api.rate_limit == 100
    }

    /// The settings to run with. No file and no environment variable is
    /// read: these are the defaults.
    pub fn load() -> (r: Result<Self, Error>)
        ensures
            r matches Ok(config) && config.is_default(),
    {
        Ok(Config::default())
    }
}

impl Default for Config {
    fn default() -> (r: Self)
        ensures
            r.is_default(),
    {
        Config {
            crawler: CrawlerConfig {
                max_concurrent_requests: 100,
                max_depth: 5,
                timeout_seconds: 30,
                user_agent: "RustCrawler/0.1.0".to_owned(),
                default_delay_ms: 1000,
                max_retries: 3,
                max_page_size: 10 * 1024 * 1024,
                num_workers: 8,
            },
            storage: StorageConfig {
                storage_path: "./data/storage".to_owned(),
                index_path: "./data/index".to_owned(),
            },
            search: SearchConfig {
                max_results: 1000,
                default_limit: 10,
                enable_snippets: true,
                snippet_length: 200,
            },
            api: ApiConfig {
                host: "127.0.0.1".to_owned(),
                port: 8080,
                enable_cors: true,
                rate_limit: 100,
            },
        }
    }
}

} // verus!
