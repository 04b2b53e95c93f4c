//! The endpoints of the API.

pub mod raw;

pub use raw::{fundamentals, time_series};
