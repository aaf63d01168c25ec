//! Databricks ADBC driver core.
//!
//! The statement lifecycle and the result retrieval pipeline of a driver for
//! Databricks SQL endpoints, written as state machines that do no input or
//! output themselves: the caller performs the network calls they ask for and
//! hands back what came of them.

pub mod auth;
pub mod client;
pub mod connection;
pub mod database;
pub mod driver;
pub mod error;
pub mod features;
pub mod lifecycle;
pub mod options;
pub mod reader;
pub mod result;
pub mod statement;
pub mod telemetry;

pub use connection::Connection;
pub use database::Database;
pub use driver::Driver;
pub use error::{DatabricksErrorHelper, Error, Status};
pub use statement::Statement;
