//! Readers that turn the result description of a finished query into a
//! stream of batches.

pub mod cloudfetch;
pub mod laws;
pub mod link;
pub mod model;
pub mod retry;
pub mod wellformed;

pub use cloudfetch::{CloudFetchReader, FetchAction, FetchOutcome, InFlightChunk, StreamEvent};
pub use link::{CloudFetchConfig, CloudFetchLink};
pub use model::{ChunkState, Phase};
