//! Endpoints whose result is the body of the response.

pub mod fundamentals;
pub mod time_series;
