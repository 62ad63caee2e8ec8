//! Verified decision logic of the farmer's remote piece getter, and the
//! benchmarked dispatch weights of the auto-id pallet.

pub mod weights;
pub mod source;
pub mod fast_lookup;
pub mod slow_lookup;
pub mod cluster_lookup;
pub mod batch_fetch;
