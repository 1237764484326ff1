//! A client library for a media-management HTTP API: the search criteria and
//! their query strings, the classification of the API's errors, and the reading
//! of its responses.

pub mod client;
pub mod error;
pub mod response;
pub mod search_file;

pub use client::FILES_ENDPOINT;
pub use error::Error;
pub use search_file::{Filename, FormatOpts, RequestCriteria};
