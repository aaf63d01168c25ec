//! The client side of the warehouse's SQL API.

pub mod http;

pub use http::{HttpClient, HttpClientConfig};
