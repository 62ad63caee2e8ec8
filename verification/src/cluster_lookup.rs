//! Getting one piece through the cluster: ask the controller where the piece is
//! cached, read it from that cache, and fall back to asking the controller for
//! the piece itself.

use crate::source::PieceIndex;
use vstd::prelude::*;

verus! {

/// Where a piece is kept in the cluster: a piece cache and an offset in it.
#[derive(Clone, Copy, Debug, PartialEq, Eq, Structural)]
pub struct CacheLocation {
    pub cache_id: u128,
    pub offset: u32,
}

/// Which answer the cluster lookup waits for.
#[derive(Clone, Copy, Debug, PartialEq, Eq, Structural)]
pub enum ClusterStage {
    Locating,
    ReadingCache,
    AskingController,
    Finished,
}

/// A lookup of one piece through the cluster.
#[derive(Clone, Copy, Debug, PartialEq, Eq, Structural)]
pub struct ClusterLookup {
    pub piece_index: PieceIndex,
    pub stage: ClusterStage,
}

/// An answer that came back to the cluster lookup.
#[derive(Debug)]
pub enum ClusterEvent<P> {
    /// The controller's answer to where the piece is cached.
    Located(Option<CacheLocation>),
    /// The cache's answer: the piece it holds at the offset, with its index.
    CacheRead(Option<(PieceIndex, P)>),
    /// The controller's answer to the request for the piece.
    ControllerAnswered(Option<P>),
    /// The pending request failed.
    RequestFailed,
}

/// What the driver of the cluster lookup does next.
#[derive(Debug)]
pub enum ClusterAction<P> {
    /// Ask the controller in which cache the piece is.
    FindInCache(PieceIndex),
    /// Ask that cache for the piece at that offset.
    ReadFromCache(CacheLocation),
    /// Ask the controller for the piece.
    AskController(PieceIndex),
    /// Offer the piece to the farmer cache, then return it.
    StoreThenReturn(P),
    /// Return this result.
    Return(Option<P>),
    /// Return the error of the request that failed.
    Abort,
    /// Nothing to do.
    Nothing,
}

/// A cluster lookup begins by asking where the piece is cached.
pub open spec fn cluster_start_spec<P>(piece_index: PieceIndex) -> (ClusterLookup, ClusterAction<P>) {
    (
        ClusterLookup { piece_index, stage: ClusterStage::Locating },
        ClusterAction::FindInCache(piece_index),
    )
}

/// One step of the cluster lookup. A piece read from a cache is only accepted
/// when the cache reports it under the requested index (the slot may have been
/// reused in the meantime); a failed or empty cache read falls back to the
/// controller, while a failed request to the controller fails the lookup.
pub open spec fn cluster_transition<P>(lookup: ClusterLookup, event: ClusterEvent<P>) -> (ClusterLookup, ClusterAction<P>) {
    let idx = lookup.piece_index;
    let finished = ClusterLookup { piece_index: idx, stage: ClusterStage::Finished };
    let controller = ClusterLookup { piece_index: idx, stage: ClusterStage::AskingController };
    match lookup.stage {
        ClusterStage::Locating => match event {
            ClusterEvent::Located(Some(location)) => (
                ClusterLookup { piece_index: idx, stage: ClusterStage::ReadingCache },
                ClusterAction::ReadFromCache(location),
            ),
            ClusterEvent::Located(None) => (controller, ClusterAction::AskController(idx)),
            ClusterEvent::RequestFailed => (finished, ClusterAction::Abort),
            _ => (lookup, ClusterAction::Nothing),
        },
        ClusterStage::ReadingCache => match event {
            ClusterEvent::CacheRead(Some((read_index, piece))) => if read_index == idx {
                (finished, ClusterAction::StoreThenReturn(piece))
            } else {
                (controller, ClusterAction::AskController(idx))
            },
            ClusterEvent::CacheRead(None) => (controller, ClusterAction::AskController(idx)),
            ClusterEvent::RequestFailed => (controller, ClusterAction::AskController(idx)),
            _ => (lookup, ClusterAction::Nothing),
        },
        ClusterStage::AskingController => match event {
            ClusterEvent::ControllerAnswered(result) => (finished, ClusterAction::Return(result)),
            ClusterEvent::RequestFailed => (finished, ClusterAction::Abort),
            _ => (lookup, ClusterAction::Nothing),
        },
        ClusterStage::Finished => (lookup, ClusterAction::Nothing),
    }
}

/// A piece is only returned from a piece cache when the cache holds it under the
/// requested index; whatever else the cache answers, or if reading it fails,
/// the controller is asked for the piece.
pub proof fn law_cluster_cache_piece_matches_index<P>(lookup: ClusterLookup, event: ClusterEvent<P>)
    ensures
        (cluster_transition(lookup, event).1 matches ClusterAction::StoreThenReturn(piece)
            ==> lookup.stage == ClusterStage::ReadingCache
                && event == ClusterEvent::CacheRead(Some((lookup.piece_index, piece)))),
        lookup.stage == ClusterStage::ReadingCache && !(event matches ClusterEvent::CacheRead(Some((i, _))) && i == lookup.piece_index)
            && !(event is Located) && !(event is ControllerAnswered)
            ==> cluster_transition(lookup, event).1 == ClusterAction::<P>::AskController(lookup.piece_index),
{
}

/// The lookup fails only when locating the piece or asking the controller
/// fails; a failed cache read is not an error.
pub proof fn law_cluster_aborts_only_on_controller_failure<P>(lookup: ClusterLookup, event: ClusterEvent<P>)
    ensures
        cluster_transition(lookup, event).1 is Abort ==> event is RequestFailed && (lookup.stage
            == ClusterStage::Locating || lookup.stage == ClusterStage::AskingController),
        cluster_transition(lookup, event).0.piece_index == lookup.piece_index,
{
}

/// The action a cluster lookup of `piece_index` ends with, when the controller
/// answers where the piece is with `located` (`None`: the request failed), then
/// (if asked) the cache answers `read` (`None`: the read failed), then (if asked)
/// the controller answers `controller` (`None`: the request failed).
pub open spec fn cluster_run<P>(
    piece_index: PieceIndex,
    located: Option<Option<CacheLocation>>,
    read: Option<Option<(PieceIndex, P)>>,
    controller: Option<Option<P>>,
) -> ClusterAction<P> {
    let l0 = cluster_start_spec::<P>(piece_index).0;
    let (l1, a1) = cluster_transition(l0, match located {
        Some(answer) => ClusterEvent::Located(answer),
        None => ClusterEvent::RequestFailed,
    });
    let (l2, a2) = if l1.stage == ClusterStage::ReadingCache {
        cluster_transition(l1, match read {
            Some(answer) => ClusterEvent::CacheRead(answer),
            None => ClusterEvent::RequestFailed,
        })
    } else {
        (l1, a1)
    };
    if l2.stage == ClusterStage::AskingController {
        cluster_transition(l2, match controller {
            Some(answer) => ClusterEvent::ControllerAnswered(answer),
            None => ClusterEvent::RequestFailed,
        }).1
    } else {
        a2
    }
}

/// What the lookup ends with when the controller answers the request for the
/// piece with `controller` (`None`: the request failed).
pub open spec fn controller_outcome<P>(controller: Option<Option<P>>) -> ClusterAction<P> {
    match controller {
        Some(answer) => ClusterAction::Return(answer),
        None => ClusterAction::Abort,
    }
}

/// Getting a piece through the cluster ends, within three answers, with: the
/// piece from the cache where the controller located it, if that cache holds it
/// under the requested index; otherwise the controller's answer; and with an
/// error when locating the piece or asking the controller fails.
pub proof fn law_cluster_outcome<P>(
    piece_index: PieceIndex,
    located: Option<Option<CacheLocation>>,
    read: Option<Option<(PieceIndex, P)>>,
    controller: Option<Option<P>>,
)
    ensures
        cluster_run(piece_index, located, read, controller) == match located {
            None => ClusterAction::Abort,
            Some(None) => controller_outcome(controller),
            Some(Some(_)) => match read {
                Some(Some((i, piece))) => if i == piece_index {
                    ClusterAction::StoreThenReturn(piece)
                } else {
                    controller_outcome(controller)
                },
                _ => controller_outcome(controller),
            },
        },
{
}

/// The answer that comes back to the request `action`, when the controller
/// answers where a piece is with `located`, a cache answers a read with `read`,
/// and the controller answers a request for a piece with `controller` (`None`:
/// the request failed); `None` when `action` is no request.
pub open spec fn cluster_answer<P>(
    action: ClusterAction<P>,
    located: spec_fn(PieceIndex) -> Option<Option<CacheLocation>>,
    read: spec_fn(CacheLocation) -> Option<Option<(PieceIndex, P)>>,
    controller: spec_fn(PieceIndex) -> Option<Option<P>>,
) -> Option<ClusterEvent<P>> {
    match action {
        ClusterAction::FindInCache(i) => Some(
            match located(i) {
                Some(answer) => ClusterEvent::Located(answer),
                None => ClusterEvent::RequestFailed,
            },
        ),
        ClusterAction::ReadFromCache(location) => Some(
            match read(location) {
                Some(answer) => ClusterEvent::CacheRead(answer),
                None => ClusterEvent::RequestFailed,
            },
        ),
        ClusterAction::AskController(i) => Some(
            match controller(i) {
                Some(answer) => ClusterEvent::ControllerAnswered(answer),
                None => ClusterEvent::RequestFailed,
            },
        ),
        _ => None,
    }
}

/// The action a driver stops at when it performs each request the lookup asks
/// for, at most `steps` of them, and hands back the answer.
pub open spec fn cluster_drive<P>(
    lookup: ClusterLookup,
    action: ClusterAction<P>,
    located: spec_fn(PieceIndex) -> Option<Option<CacheLocation>>,
    read: spec_fn(CacheLocation) -> Option<Option<(PieceIndex, P)>>,
    controller: spec_fn(PieceIndex) -> Option<Option<P>>,
    steps: nat,
) -> ClusterAction<P>
    decreases steps,
{
    match cluster_answer(action, located, read, controller) {
        None => action,
        Some(event) => if steps == 0 {
            action
        } else {
            let (next, next_action) = cluster_transition(lookup, event);
            cluster_drive(next, next_action, located, read, controller, (steps - 1) as nat)
        },
    }
}

/// Getting piece `piece_index` through the cluster, with every request performed
/// as the lookup asks for it, stops after at most three requests, at: the piece
/// the cache where the controller located it holds, if the cache holds it under
/// `piece_index`; otherwise the controller's answer for `piece_index`; and an
/// error when locating the piece or asking the controller fails.
pub proof fn law_cluster_driven_outcome<P>(
    piece_index: PieceIndex,
    located: spec_fn(PieceIndex) -> Option<Option<CacheLocation>>,
    read: spec_fn(CacheLocation) -> Option<Option<(PieceIndex, P)>>,
    controller: spec_fn(PieceIndex) -> Option<Option<P>>,
)
    ensures
        cluster_answer(
            cluster_drive(
                cluster_start_spec::<P>(piece_index).0,
                cluster_start_spec::<P>(piece_index).1,
                located,
                read,
                controller,
                3,
            ),
            located,
            read,
            controller,
        ) is None,
        cluster_drive(
            cluster_start_spec::<P>(piece_index).0,
            cluster_start_spec::<P>(piece_index).1,
            located,
            read,
            controller,
            3,
        ) == match located(piece_index) {
            None => ClusterAction::Abort,
            Some(None) => controller_outcome(controller(piece_index)),
            Some(Some(location)) => match read(location) {
                Some(Some((i, piece))) => if i == piece_index {
                    ClusterAction::StoreThenReturn(piece)
                } else {
                    controller_outcome(controller(piece_index))
                },
                _ => controller_outcome(controller(piece_index)),
            },
        },
{
    reveal_with_fuel(cluster_drive, 4);
}

/// Starts a lookup of `piece_index` through the cluster.
pub fn cluster_start<P>(piece_index: PieceIndex) -> (r: (ClusterLookup, ClusterAction<P>))
    ensures
        r == cluster_start_spec::<P>(piece_index),
{
    (
        ClusterLookup { piece_index, stage: ClusterStage::Locating },
        ClusterAction::FindInCache(piece_index),
    )
}

/// Advances a cluster lookup by the answer that came back.
pub fn cluster_step<P>(lookup: ClusterLookup, event: ClusterEvent<P>) -> (r: (ClusterLookup, ClusterAction<P>))
    ensures
        r == cluster_transition(lookup, event),
{
    let idx = lookup.piece_index;
    let finished = ClusterLookup { piece_index: idx, stage: ClusterStage::Finished };
    let controller = ClusterLookup { piece_index: idx, stage: ClusterStage::AskingController };
    match lookup.stage {
        ClusterStage::Locating => match event {
            ClusterEvent::Located(Some(location)) => (
                ClusterLookup { piece_index: idx, stage: ClusterStage::ReadingCache },
                ClusterAction::ReadFromCache(location),
            ),
            ClusterEvent::Located(None) => (controller, ClusterAction::AskController(idx)),
            ClusterEvent::RequestFailed => (finished, ClusterAction::Abort),
            _ => (lookup, ClusterAction::Nothing),
        },
        ClusterStage::ReadingCache => match event {
            ClusterEvent::CacheRead(Some((read_index, piece))) => if read_index == idx {
                (finished, ClusterAction::StoreThenReturn(piece))
            } else {
                (controller, ClusterAction::AskController(idx))
            },
            ClusterEvent::CacheRead(None) => (controller, ClusterAction::AskController(idx)),
            ClusterEvent::RequestFailed => (controller, ClusterAction::AskController(idx)),
            _ => (lookup, ClusterAction::Nothing),
        },
        ClusterStage::AskingController => match event {
            ClusterEvent::ControllerAnswered(result) => (finished, ClusterAction::Return(result)),
            ClusterEvent::RequestFailed => (finished, ClusterAction::Abort),
            _ => (lookup, ClusterAction::Nothing),
        },
        ClusterStage::Finished => (lookup, ClusterAction::Nothing),
    }
}

} // verus!
