//! Cloud Storage bucket operations: request construction, response status
//! handling and the aggregation of paginated object listings.
pub mod bucket;
pub mod encode;
pub mod error;
pub mod listing;
