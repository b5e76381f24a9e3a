//! A replayable history over a single-pass item source: cursors that rewind
//! to any recorded position and replay items without pulling them again,
//! reverse walks over the history, prefix eviction, and cursors that share one
//! source and history across threads.

pub mod concurrent;
pub mod copying;
pub mod laws;
pub mod model;
pub mod record;
pub mod referencing;
pub mod slice;
pub mod traits;

pub use concurrent::{ConcurrentCopyingBacktrackingIterator, ConcurrentReferencingBacktrackingIterator};
pub use copying::{CopyingBacktrackingIterator, CopyingWalkback};
pub use model::BacktrackingState;
pub use record::BacktrackingRecorder;
pub use referencing::{ReferencingBacktrackingIterator, ReferencingWalkback};
pub use slice::{BacktrackingSlice, SliceableIterator};
pub use traits::{BacktrackingIterator, Record, Walkback, Walkbackable};
