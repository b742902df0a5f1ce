//! Markers for the store-side SQL types of the enumerated columns; the
//! storage mapping that uses them lives with the surrounding service.

use vstd::prelude::*;

verus! {

/// Marker for the store-side `media_category` SQL type.
#[derive(Clone, Copy, Debug)]
pub struct MediaCategory;

/// Marker for the store-side `watch_status` SQL type.
#[derive(Clone, Copy, Debug)]
pub struct WatchStatus;

} // verus!
