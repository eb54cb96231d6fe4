//! The abstract model of a dispatch pass.
//!
//! A pass over a chain of handlers is modelled by the spec function [`run`]:
//! given the ordered chain and the starting context value, it yields the
//! final value, the outcome, the full sequence of observable events, and the
//! handlers that were never reached. The executable pipeline is specified
//! against this model, so every property proved of `run` holds of the code.

use vstd::prelude::*;

verus! {

/// One step of a pipeline, in the erased form that a chain stores.
///
/// An `Offset` handler adds its amount to the context value, invokes the
/// continuation, subtracts the amount again once the continuation returns,
/// and passes the inner outcome upward unchanged (onion execution).
/// A `ShortCircuit` handler resolves at once with [`Outcome::Handled`] and
/// never invokes the continuation, so the handlers still in the chain are
/// skipped silently.
#[derive(Clone, Copy, Debug, PartialEq, Eq, Structural)]
pub enum Handler {
    /// Mutates the value on entry and reverts the mutation on exit.
    Offset(u64),
    /// Resolves without invoking the continuation.
    ShortCircuit,
}

/// The resolved result of a dispatch pass.
#[derive(Clone, Copy, Debug, PartialEq, Eq, Structural)]
pub enum Outcome {
    /// The chain ran out: the empty-chain continuation resolved the pass.
    Terminal,
    /// Some handler short-circuited the pass.
    Handled,
}

/// One observable step of a pass, recorded in the order it happened.
#[derive(Clone, Copy, Debug, PartialEq, Eq, Structural)]
pub enum Event {
    /// An offset handler ran its before-phase, taking the value from `from` to `to`.
    Enter { from: u64, to: u64 },
    /// An offset handler ran its after-phase, taking the value from `from` back to `to`.
    Exit { from: u64, to: u64 },
    /// The continuation found the chain empty and resolved with the terminal outcome.
    Terminal { value: u64 },
    /// A short-circuiting handler resolved the pass while the value was `value`.
    Handled { value: u64 },
}

/// Everything a dispatch pass determines: the value after the pass, the
/// outcome, the events in order, and the handlers the pass never reached.
pub ghost struct Run {
    /// The context value once the outermost frame has returned.
    pub value: u64,
    /// The outcome handed upward through every frame unchanged.
    pub outcome: Outcome,
    /// The observable events of the pass, oldest first.
    pub trace: Seq<Event>,
    /// The handlers still in the chain: those a short-circuit skipped.
    pub remaining: Seq<Handler>,
}

/// Whether one frame fits in machine arithmetic: the sum the handler adds
/// stays within `u64`, at this frame and in every frame below it.
pub open spec fn frame_fits(h: Handler, rest: Seq<Handler>, value: u64) -> bool
    decreases rest.len(), 1int,
{
    match h {
        Handler::ShortCircuit => true,
        Handler::Offset(amount) => value + amount <= u64::MAX && chain_fits(
            rest,
            (value + amount) as u64,
        ),
    }
}

/// Whether a whole pass over `chain` from `value` fits in machine arithmetic.
///
/// This asks exactly for the partial sums the pass computes, nothing wider.
pub open spec fn chain_fits(chain: Seq<Handler>, value: u64) -> bool
    decreases chain.len(), 0int,
{
    chain.len() == 0 || frame_fits(chain.last(), chain.drop_last(), value)
}

/// The model of one frame: handler `h` runs with `rest` still in the chain.
pub open spec fn run_frame(h: Handler, rest: Seq<Handler>, value: u64) -> Run
    decreases rest.len(), 1int,
{
    match h {
        Handler::ShortCircuit => Run {
            value,
            outcome: Outcome::Handled,
            trace: seq![Event::Handled { value }],
            remaining: rest,
        },
        Handler::Offset(amount) => {
            let entered = (value + amount) as u64;
            let inner = run(rest, entered);
            let restored = (inner.value - amount) as u64;
            Run {
                value: restored,
                outcome: inner.outcome,
                trace: seq![Event::Enter { from: value, to: entered }] + inner.trace + seq![
                    Event::Exit { from: inner.value, to: restored },
                ],
                remaining: inner.remaining,
            }
        },
    }
}

/// The model of a whole pass: the continuation pops handlers off the end of
/// `chain` one frame at a time, and resolves with [`Outcome::Terminal`] once
/// the chain is empty.
pub open spec fn run(chain: Seq<Handler>, value: u64) -> Run
    decreases chain.len(), 0int,
{
    if chain.len() == 0 {
        Run {
            value,
            outcome: Outcome::Terminal,
            trace: seq![Event::Terminal { value }],
            remaining: Seq::empty(),
        }
    } else {
        run_frame(chain.last(), chain.drop_last(), value)
    }
}

/// A handler that mutates the value before its continuation and reverts after
/// leaves the value exactly where it found it; since every handler does one
/// or the other, a whole pass returns the value it started from.
pub proof fn lemma_run_restores_value(chain: Seq<Handler>, value: u64)
    requires
        chain_fits(chain, value),
    ensures
        run(chain, value).value == value,
    decreases chain.len(), 0int,
{
    if chain.len() > 0 {
        lemma_frame_restores_value(chain.last(), chain.drop_last(), value);
    }
}

/// The single-frame form of the symmetry property: one frame returns the
/// value it was entered with, whatever happens in the frames below it.
pub proof fn lemma_frame_restores_value(h: Handler, rest: Seq<Handler>, value: u64)
    requires
        frame_fits(h, rest, value),
    ensures
        run_frame(h, rest, value).value == value,
    decreases rest.len(), 1int,
{
    match h {
        Handler::ShortCircuit => {
        },
        Handler::Offset(amount) => {
            lemma_run_restores_value(rest, (value + amount) as u64);
        },
    }
}

} // verus!
