//! Finds open vaccination appointment slots on a booking site: builds the
//! search and detail URLs, extracts center identifiers from search result
//! pages, decodes the per-center detail payloads, and filters and formats
//! the reports.

pub mod decode;
pub mod extract;
pub mod model;
pub mod report;
pub mod scrape;
pub mod text;
pub mod urls;
