//! Media file placement engine: resolves the earliest credible timestamp of a
//! file from metadata text, filesystem attributes and filename patterns, and
//! decides where the file is placed in a year/month tree, deduplicated by
//! content hash.
use vstd::prelude::*;

pub mod checker;
pub mod config;
pub mod crypto;
pub mod db;
pub mod dupf;
pub mod datetime;
pub mod filemeta;
pub mod numfmt;
pub mod parse;
pub mod pathname;
pub mod pick;
pub mod pipeline;
pub mod resolver;
pub mod settings;
pub mod splits;
pub mod target;
pub mod text;

pub use datetime::FileDateTime;

verus! {

/// The failures the placement engine distinguishes.
#[derive(Debug, Clone, Copy, PartialEq, Eq, Structural)]
pub enum PlaceError {
    /// No source yielded a single credible candidate timestamp.
    NoTimestampFound,
    /// The collision index space for the destination name is exhausted.
    TooManyCollisions,
    /// The earliest timestamp was read before it was resolved.
    EarliestNotSet,
    /// The path parts were read before they were set.
    PartsNotSet,
}

} // verus!
