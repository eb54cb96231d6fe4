//! The shared context and the reference continuation.
//!
//! The context is the one value every handler invocation borrows mutably.
//! It carries the application value the handlers mutate, the chain of
//! handlers still to run, and the trace of observable events, so that a
//! whole pass can be replayed and compared.

use crate::chain::chain_fits;
use crate::chain::frame_fits;
use crate::chain::lemma_run_restores_value;
use crate::chain::run;
use crate::chain::run_frame;
use crate::chain::Event;
use crate::chain::Handler;
use crate::chain::Outcome;
use vstd::prelude::*;

verus! {

/// The mutable value threaded through every handler invocation, together
/// with the chain the continuation draws from and the trace of the pass.
pub struct Context {
    /// The application value the handlers mutate and revert.
    pub value: u64,
    /// The handlers still to run, invoked from the end (pop order).
    pub chain: Vec<Handler>,
    /// The observable events so far, oldest first.
    pub trace: Vec<Event>,
}

impl Context {
    /// A fresh context: no events yet, the whole chain still to run.
    pub fn new(value: u64, chain: Vec<Handler>) -> (cx: Context)
        ensures
            cx.value == value,
            cx.chain == chain,
            cx.trace@ == Seq::<Event>::empty(),
    {
        Context { value, chain, trace: Vec::new() }
    }

    /// The continuation: removes and invokes exactly one handler from the
    /// end of the chain, or resolves with the terminal outcome if the chain
    /// is empty. The whole pass it starts is pinned by the model: the final
    /// value, the remaining chain, the appended events and the outcome are
    /// exactly those of [`run`] on the starting chain and value alone —
    /// which is why duplicated chains replay identically.
    pub fn next(&mut self) -> (out: Outcome)
        requires
            chain_fits(old(self).chain@, old(self).value),
        ensures
            ({
                let r = run(old(self).chain@, old(self).value);
                &&& final(self).value == r.value
                &&& final(self).chain@ == r.remaining
                &&& final(self).trace@ == old(self).trace@ + r.trace
                &&& out == r.outcome
            }),
        decreases old(self).chain@.len(), 0int,
    {
        match self.chain.pop() {
            None => {
                self.trace.push(Event::Terminal { value: self.value });
                proof {
                    assert(self.trace@ =~= old(self).trace@ + run(
                        old(self).chain@,
                        old(self).value,
                    ).trace);
                }
                Outcome::Terminal
            },
            Some(h) => h.invoke(self),
        }
    }
}

impl Handler {
    /// Runs this handler as one frame over the context: an offset handler
    /// mutates the value, invokes the continuation, reverts the mutation and
    /// relays the inner outcome; a short-circuiting handler resolves at once
    /// and leaves the rest of the chain untouched.
    pub fn invoke(&self, cx: &mut Context) -> (out: Outcome)
        requires
            frame_fits(*self, old(cx).chain@, old(cx).value),
        ensures
            ({
                let r = run_frame(*self, old(cx).chain@, old(cx).value);
                &&& final(cx).value == r.value
                &&& final(cx).chain@ == r.remaining
                &&& final(cx).trace@ == old(cx).trace@ + r.trace
                &&& out == r.outcome
            }),
        decreases old(cx).chain@.len(), 1int,
    {
        match *self {
            Handler::ShortCircuit => {
                cx.trace.push(Event::Handled { value: cx.value });
                proof {
                    assert(cx.trace@ =~= old(cx).trace@ + run_frame(
                        *self,
                        old(cx).chain@,
                        old(cx).value,
                    ).trace);
                }
                Outcome::Handled
            },
            Handler::Offset(amount) => {
                let from = cx.value;
                cx.value = cx.value + amount;
                cx.trace.push(Event::Enter { from, to: cx.value });
                let out = cx.next();
                proof {
                    lemma_run_restores_value(old(cx).chain@, (from + amount) as u64);
                }
                let exited = cx.value;
                cx.value = cx.value - amount;
                cx.trace.push(Event::Exit { from: exited, to: cx.value });
                proof {
                    assert(cx.trace@ =~= old(cx).trace@ + run_frame(
                        *self,
                        old(cx).chain@,
                        old(cx).value,
                    ).trace);
                }
                out
            },
        }
    }
}

} // verus!
