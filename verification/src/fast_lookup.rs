//! The fast way to get one piece: the farmer cache, then the DSN L2 cache,
//! then the node's RPC. Asking stops at the first source that has the piece.

use crate::source::SourceAnswer;
use vstd::prelude::*;

verus! {

/// Which source the fast lookup waits for.
#[derive(Clone, Copy, Debug, PartialEq, Eq, Structural)]
pub enum FastStage {
    FarmerCache,
    DsnCache,
    Node,
    Finished,
}

/// What the driver of the fast lookup does next.
#[derive(Debug)]
pub enum FastAction<P> {
    AskFarmerCache,
    AskDsnCache,
    AskNode,
    /// Offer the piece to the farmer cache, then return it.
    StoreThenReturn(P),
    /// Return this result as is.
    Return(Option<P>),
    /// The lookup is over; nothing to do.
    Nothing,
}

/// The fast lookup begins by asking the farmer cache.
pub open spec fn fast_start_spec<P>() -> (FastStage, FastAction<P>) {
    (FastStage::FarmerCache, FastAction::AskFarmerCache)
}

/// One step of the fast lookup: the stage it waited in and the answer that came
/// give the next stage and what to do.
pub open spec fn fast_transition<P>(stage: FastStage, answer: SourceAnswer<P>) -> (FastStage, FastAction<P>) {
    match stage {
        FastStage::FarmerCache => match answer {
            SourceAnswer::Found(piece) => (FastStage::Finished, FastAction::Return(Some(piece))),
            _ => (FastStage::DsnCache, FastAction::AskDsnCache),
        },
        FastStage::DsnCache => match answer {
            SourceAnswer::Found(piece) => (FastStage::Finished, FastAction::StoreThenReturn(piece)),
            _ => (FastStage::Node, FastAction::AskNode),
        },
        FastStage::Node => match answer {
            SourceAnswer::Found(piece) => (FastStage::Finished, FastAction::StoreThenReturn(piece)),
            _ => (FastStage::Finished, FastAction::Return(None)),
        },
        FastStage::Finished => (FastStage::Finished, FastAction::Nothing),
    }
}

/// The action a fast lookup ends with when the farmer cache answers `farmer`,
/// then (if asked) the DSN cache answers `dsn`, then (if asked) the node answers `node`.
pub open spec fn fast_run<P>(farmer: SourceAnswer<P>, dsn: SourceAnswer<P>, node: SourceAnswer<P>) -> FastAction<P> {
    let (s1, a1) = fast_transition(fast_start_spec::<P>().0, farmer);
    if s1 == FastStage::Finished {
        a1
    } else {
        let (s2, a2) = fast_transition(s1, dsn);
        if s2 == FastStage::Finished {
            a2
        } else {
            fast_transition(s2, node).1
        }
    }
}

/// The sources are asked in the order farmer cache, DSN cache, node, and the
/// first one that has the piece supplies it. A piece from the DSN cache or the
/// node is offered to the farmer cache before it is returned; a piece from the
/// farmer cache is returned as it is; a failure of the node counts as a miss.
pub proof fn law_fast_first_hit_wins<P>(farmer: SourceAnswer<P>, dsn: SourceAnswer<P>, node: SourceAnswer<P>)
    ensures
        fast_start_spec::<P>().1 is AskFarmerCache,
        fast_transition(FastStage::FarmerCache, farmer).1 is AskDsnCache <==> !(farmer is Found),
        fast_transition(FastStage::DsnCache, dsn).1 is AskNode <==> !(dsn is Found),
        fast_run(farmer, dsn, node) == match farmer {
            SourceAnswer::Found(piece) => FastAction::Return(Some(piece)),
            _ => match dsn {
                SourceAnswer::Found(piece) => FastAction::StoreThenReturn(piece),
                _ => match node {
                    SourceAnswer::Found(piece) => FastAction::StoreThenReturn(piece),
                    _ => FastAction::Return(None),
                },
            },
        },
{
}

/// Once finished, a fast lookup stays finished and does nothing more.
pub proof fn law_fast_finished_is_final<P>(answer: SourceAnswer<P>)
    ensures
        fast_transition(FastStage::Finished, answer) == (FastStage::Finished, FastAction::<P>::Nothing),
{
}

/// The answer that comes back to the request `action`, when the farmer cache
/// answers `farmer`, the DSN cache `dsn` and the node `node`; `None` when
/// `action` is no request.
pub open spec fn fast_answer<P>(
    action: FastAction<P>,
    farmer: SourceAnswer<P>,
    dsn: SourceAnswer<P>,
    node: SourceAnswer<P>,
) -> Option<SourceAnswer<P>> {
    match action {
        FastAction::AskFarmerCache => Some(farmer),
        FastAction::AskDsnCache => Some(dsn),
        FastAction::AskNode => Some(node),
        _ => None,
    }
}

/// The action a driver stops at when it performs each request the lookup asks
/// for, at most `steps` of them, and hands back the answer.
pub open spec fn fast_drive<P>(
    stage: FastStage,
    action: FastAction<P>,
    farmer: SourceAnswer<P>,
    dsn: SourceAnswer<P>,
    node: SourceAnswer<P>,
    steps: nat,
) -> FastAction<P>
    decreases steps,
{
    match fast_answer(action, farmer, dsn, node) {
        None => action,
        Some(answer) => if steps == 0 {
            action
        } else {
            let (next, next_action) = fast_transition(stage, answer);
            fast_drive(next, next_action, farmer, dsn, node, (steps - 1) as nat)
        },
    }
}

/// Driven request by request, the fast lookup stops after at most three
/// requests, with the piece of the first source (farmer cache, DSN cache, node)
/// that has it; pieces of the DSN cache and the node are offered to the farmer
/// cache first; with nothing when no source has it.
pub proof fn law_fast_driven_outcome<P>(farmer: SourceAnswer<P>, dsn: SourceAnswer<P>, node: SourceAnswer<P>)
    ensures
        fast_answer(
            fast_drive(fast_start_spec::<P>().0, fast_start_spec::<P>().1, farmer, dsn, node, 3),
            farmer,
            dsn,
            node,
        ) is None,
        fast_drive(fast_start_spec::<P>().0, fast_start_spec::<P>().1, farmer, dsn, node, 3) == match farmer {
            SourceAnswer::Found(piece) => FastAction::Return(Some(piece)),
            _ => match dsn {
                SourceAnswer::Found(piece) => FastAction::StoreThenReturn(piece),
                _ => match node {
                    SourceAnswer::Found(piece) => FastAction::StoreThenReturn(piece),
                    _ => FastAction::Return(None),
                },
            },
        },
{
    reveal_with_fuel(fast_drive, 4);
}

/// Starts a fast lookup.
pub fn fast_start<P>() -> (r: (FastStage, FastAction<P>))
    ensures
        r == fast_start_spec::<P>(),
{
    (FastStage::FarmerCache, FastAction::AskFarmerCache)
}

/// Advances a fast lookup by the answer of the source it waited for.
pub fn fast_step<P>(stage: FastStage, answer: SourceAnswer<P>) -> (r: (FastStage, FastAction<P>))
    ensures
        r == fast_transition(stage, answer),
{
    match stage {
        FastStage::FarmerCache => match answer {
            SourceAnswer::Found(piece) => (FastStage::Finished, FastAction::Return(Some(piece))),
            _ => (FastStage::DsnCache, FastAction::AskDsnCache),
        },
        FastStage::DsnCache => match answer {
            SourceAnswer::Found(piece) => (FastStage::Finished, FastAction::StoreThenReturn(piece)),
            _ => (FastStage::Node, FastAction::AskNode),
        },
        FastStage::Node => match answer {
            SourceAnswer::Found(piece) => (FastStage::Finished, FastAction::StoreThenReturn(piece)),
            _ => (FastStage::Finished, FastAction::Return(None)),
        },
        FastStage::Finished => (FastStage::Finished, FastAction::Nothing),
    }
}

} // verus!
