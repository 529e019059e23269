pub mod address;
pub mod crawler;
pub mod fetcher;
pub mod frontier;
pub mod limiter;
pub mod parser;
pub mod robots;
pub mod run;

pub use address::Address;
pub use crawler::CrawlStats;
pub use crawler::Crawler;
pub use crawler::CrawlerBuilder;
pub use crawler::FetchPlan;
pub use crawler::WorkerAction;
pub use crawler::WorkerState;
pub use fetcher::FetchResponse;
pub use fetcher::Fetcher;
pub use fetcher::Transfer;
pub use frontier::CrawlTask;
pub use frontier::UrlFrontier;
pub use limiter::PolitenessLimiter;
pub use parser::ParsedPage;
pub use parser::Parser;
pub use robots::RobotsAnswer;
pub use robots::RobotsChecker;
pub use robots::RobotsRules;
