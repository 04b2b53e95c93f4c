//! A typed client library for the Alpha Vantage market-data API.
//!
//! The library builds the requests of the API's endpoints, reads their responses, and
//! reshapes them into tables. It never touches the network: a request is an address
//! to send a GET to, and a response is what the caller's transport brought back.
//!
//! - [`request`] and [`rest`] hold one request builder for each endpoint.
//! - [`processor`] turns a response into its body, a decoded value, or an array of
//!   records.
//! - [`tool_use`] is the tool layer: ten tools, called through a `{tool, params}`
//!   envelope, each returning a table of rows with an explicit column schema.
//! - [`json`] is the document model that all of this computes on.

pub mod client;
pub mod error;
pub mod json;
pub mod processor;
pub mod request;
pub mod response;
pub mod rest;
pub mod text;
pub mod tool_use;

pub use client::AlphaVantage;
pub use error::Error;
pub use response::Response;
