//! Filtered-pagination query engine for a film/show review service.
//!
//! The engine composes optional equality filters over a relation, resolves a
//! caller-supplied sort token to a deterministic ordering, and slices one page
//! out of the matching rows while reporting the total match count computed
//! before the slice.

pub mod auth;
pub mod errors;
pub mod models;
pub mod pagination;
pub mod reviews;
pub mod schema;
pub mod search;
pub mod sorting;
pub mod users;
pub mod utils;
