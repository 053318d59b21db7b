//! Fetch-and-scrape pipeline: URL validation with a loopback guard, checking
//! of HTTP responses, and CSS-selector queries over parsed HTML.

pub mod text;
pub mod url;
pub mod document;
pub mod scraper;
