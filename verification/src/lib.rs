//! A verified catalogue-scraping pipeline: page-URL construction, a
//! token-bucket rate limiter, title extraction and validation, result
//! aggregation, run-phase tracking, and JSON rendering of the final records.
use vstd::prelude::*;

pub mod aggregate;
pub mod extract;
pub mod json;
pub mod limiter;
pub mod record;
pub mod run;
pub mod urls;

verus! {

/// The pipeline's configuration: where to fetch from, how many pages,
/// the shortest title that is kept, and the outbound request rate.
pub struct Config {
    /// Base URL that every page URL is built from.
    pub base_url: String,
    /// Number of catalogue pages to fetch.
    pub page_count: u32,
    /// Titles of at most this many characters are rejected.
    pub min_title_len: usize,
    /// Admitted request starts per second, shared by all fetch tasks.
    pub rate_per_sec: u64,
}

impl Default for Config {
    /// The reference configuration: five pages of the demo catalogue,
    /// titles longer than four characters, one request per second.
    fn default() -> (c: Config)
        ensures
            c.base_url@ == "https://books.toscrape.com/"@,
            c.page_count == 5,
            c.min_title_len == 4,
            c.rate_per_sec == 1,
    {
        Config {
            base_url: "https://books.toscrape.com/".to_owned(),
            page_count: 5,
            min_title_len: 4,
            rate_per_sec: 1,
        }
    }
}

} // verus!
