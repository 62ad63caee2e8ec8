//! The slow way to get one piece: the local plot, then the archival storage
//! of the DSN (L1), searched by a bounded random walk.

use crate::source::SourceAnswer;
use vstd::prelude::*;

verus! {

/// How many rounds the random walk over the archival storage may take.
pub const MAX_RANDOM_WALK_ROUNDS: usize = 15;

/// Which source the slow lookup waits for.
#[derive(Clone, Copy, Debug, PartialEq, Eq, Structural)]
pub enum SlowStage {
    LocalPlot,
    Archival,
    Finished,
}

/// What the driver of the slow lookup does next.
#[derive(Debug)]
pub enum SlowAction<P> {
    /// Read the piece from the local plot, if the plot is not locked for writing.
    AskLocalPlot,
    /// Search the archival storage with at most `max_rounds` random-walk rounds.
    AskArchival { max_rounds: usize },
    /// Offer the piece to the farmer cache, then return it.
    StoreThenReturn(P),
    /// Return this result as is.
    Return(Option<P>),
    /// The lookup is over; nothing to do.
    Nothing,
}

/// The slow lookup begins with the local plot.
pub open spec fn slow_start_spec<P>() -> (SlowStage, SlowAction<P>) {
    (SlowStage::LocalPlot, SlowAction::AskLocalPlot)
}

/// One step of the slow lookup. A piece found anywhere is offered to the
/// farmer cache before it is returned.
pub open spec fn slow_transition<P>(stage: SlowStage, answer: SourceAnswer<P>) -> (SlowStage, SlowAction<P>) {
    match stage {
        SlowStage::LocalPlot => match answer {
            SourceAnswer::Found(piece) => (SlowStage::Finished, SlowAction::StoreThenReturn(piece)),
            _ => (SlowStage::Archival, SlowAction::AskArchival { max_rounds: MAX_RANDOM_WALK_ROUNDS }),
        },
        SlowStage::Archival => match answer {
            SourceAnswer::Found(piece) => (SlowStage::Finished, SlowAction::StoreThenReturn(piece)),
            _ => (SlowStage::Finished, SlowAction::Return(None)),
        },
        SlowStage::Finished => (SlowStage::Finished, SlowAction::Nothing),
    }
}

/// The action a slow lookup ends with when the local plot answers `plot`, then
/// (if asked) the archival storage answers `archival`.
pub open spec fn slow_run<P>(plot: SourceAnswer<P>, archival: SourceAnswer<P>) -> SlowAction<P> {
    let (s1, a1) = slow_transition(slow_start_spec::<P>().0, plot);
    if s1 == SlowStage::Finished {
        a1
    } else {
        slow_transition(s1, archival).1
    }
}

/// The local plot is asked first; the archival storage is searched, with the
/// bounded random walk, only when the plot does not yield the piece. Whichever
/// source yields the piece, it is offered to the farmer cache before it is returned.
pub proof fn law_slow_plot_before_archival<P>(plot: SourceAnswer<P>, archival: SourceAnswer<P>)
    ensures
        slow_start_spec::<P>().1 is AskLocalPlot,
        !(plot is Found) ==> slow_transition(SlowStage::LocalPlot, plot).1 == (SlowAction::<P>::AskArchival {
            max_rounds: MAX_RANDOM_WALK_ROUNDS,
        }),
        slow_run(plot, archival) == match plot {
            SourceAnswer::Found(piece) => SlowAction::StoreThenReturn(piece),
            _ => match archival {
                SourceAnswer::Found(piece) => SlowAction::StoreThenReturn(piece),
                _ => SlowAction::Return(None),
            },
        },
{
}

/// The answer that comes back to the request `action`, when the local plot
/// answers `plot` and the archival storage, searched with a given number of
/// rounds, answers `archival`; `None` when `action` is no request.
pub open spec fn slow_answer<P>(
    action: SlowAction<P>,
    plot: SourceAnswer<P>,
    archival: spec_fn(usize) -> SourceAnswer<P>,
) -> Option<SourceAnswer<P>> {
    match action {
        SlowAction::AskLocalPlot => Some(plot),
        SlowAction::AskArchival { max_rounds } => Some(archival(max_rounds)),
        _ => None,
    }
}

/// The action a driver stops at when it performs each request the lookup asks
/// for, at most `steps` of them, and hands back the answer.
pub open spec fn slow_drive<P>(
    stage: SlowStage,
    action: SlowAction<P>,
    plot: SourceAnswer<P>,
    archival: spec_fn(usize) -> SourceAnswer<P>,
    steps: nat,
) -> SlowAction<P>
    decreases steps,
{
    match slow_answer(action, plot, archival) {
        None => action,
        Some(answer) => if steps == 0 {
            action
        } else {
            let (next, next_action) = slow_transition(stage, answer);
            slow_drive(next, next_action, plot, archival, (steps - 1) as nat)
        },
    }
}

/// Driven request by request, the slow lookup stops after at most two requests,
/// with the piece of the local plot, or else the piece the archival storage
/// yields to a search of at most fifteen random-walk rounds, offered to the
/// farmer cache first; with nothing when neither has it.
pub proof fn law_slow_driven_outcome<P>(plot: SourceAnswer<P>, archival: spec_fn(usize) -> SourceAnswer<P>)
    ensures
        slow_answer(slow_drive(slow_start_spec::<P>().0, slow_start_spec::<P>().1, plot, archival, 2), plot, archival) is None,
        slow_drive(slow_start_spec::<P>().0, slow_start_spec::<P>().1, plot, archival, 2) == match plot {
            SourceAnswer::Found(piece) => SlowAction::StoreThenReturn(piece),
            _ => match archival(15) {
                SourceAnswer::Found(piece) => SlowAction::StoreThenReturn(piece),
                _ => SlowAction::Return(None),
            },
        },
{
    reveal_with_fuel(slow_drive, 3);
}

/// Starts a slow lookup.
pub fn slow_start<P>() -> (r: (SlowStage, SlowAction<P>))
    ensures
        r == slow_start_spec::<P>(),
{
    (SlowStage::LocalPlot, SlowAction::AskLocalPlot)
}

/// Advances a slow lookup by the answer of the source it waited for.
pub fn slow_step<P>(stage: SlowStage, answer: SourceAnswer<P>) -> (r: (SlowStage, SlowAction<P>))
    ensures
        r == slow_transition(stage, answer),
{
    match stage {
        SlowStage::LocalPlot => match answer {
            SourceAnswer::Found(piece) => (SlowStage::Finished, SlowAction::StoreThenReturn(piece)),
            _ => (SlowStage::Archival, SlowAction::AskArchival { max_rounds: MAX_RANDOM_WALK_ROUNDS }),
        },
        SlowStage::Archival => match answer {
            SourceAnswer::Found(piece) => (SlowStage::Finished, SlowAction::StoreThenReturn(piece)),
            _ => (SlowStage::Finished, SlowAction::Return(None)),
        },
        SlowStage::Finished => (SlowStage::Finished, SlowAction::Nothing),
    }
}

} // verus!
