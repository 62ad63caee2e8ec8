//! What a piece source answers when asked for one piece.

use vstd::prelude::*;

verus! {

/// Index of a piece in the history.
pub type PieceIndex = u64;

/// The answer of one piece source (a cache, a plot, the node, the network).
#[derive(Debug)]
pub enum SourceAnswer<P> {
    /// The source has the piece.
    Found(P),
    /// The source does not have the piece.
    Missing,
    /// Asking the source failed.
    Failed,
}

} // verus!
