//! Implementations of the handle capability.
//!
//! Three kinds of value satisfy [`Handle`]: the erased [`Handler`] form a
//! chain stores, a hand-written stateful type ([`OffsetHandler`]), and any
//! plain callable through the adapter [`FnHandler`].

use crate::chain::frame_fits;
use crate::chain::lemma_run_restores_value;
use crate::chain::run_frame;
use crate::chain::Event;
use crate::chain::Handler;
use crate::chain::Outcome;
use crate::context::Context;
use crate::Handle;
use vstd::prelude::*;

verus! {

impl Handle for Handler {
    /// The frame must fit in machine arithmetic.
    open spec fn req(&self, cx: Context) -> bool {
        frame_fits(*self, cx.chain@, cx.value)
    }

    /// One call is exactly one frame of the model.
    open spec fn ens(&self, pre: Context, post: Context, out: Outcome) -> bool {
        let r = run_frame(*self, pre.chain@, pre.value);
        &&& post.value == r.value
        &&& post.chain@ == r.remaining
        &&& post.trace@ == pre.trace@ + r.trace
        &&& out == r.outcome
    }

    fn call(&self, cx: &mut Context) -> (out: Outcome) {
        self.invoke(cx)
    }
}

/// A hand-written stateful handler: its private state is the amount it adds
/// to the context value before invoking the continuation and subtracts again
/// after the continuation returns, relaying the inner outcome unchanged.
pub struct OffsetHandler {
    amount: u64,
}

impl OffsetHandler {
    /// The amount this handler adds on entry and subtracts on exit.
    pub closed spec fn amount(&self) -> u64 {
        self.amount
    }

    /// A handler that wraps the continuation in `+ amount` / `- amount`.
    pub fn new(amount: u64) -> (h: OffsetHandler)
        ensures
            h.amount() == amount,
    {
        OffsetHandler { amount }
    }
}

impl Handle for OffsetHandler {
    /// The frame must fit in machine arithmetic.
    open spec fn req(&self, cx: Context) -> bool {
        frame_fits(Handler::Offset(self.amount()), cx.chain@, cx.value)
    }

    /// One call behaves exactly as an offset frame of the model.
    open spec fn ens(&self, pre: Context, post: Context, out: Outcome) -> bool {
        let r = run_frame(Handler::Offset(self.amount()), pre.chain@, pre.value);
        &&& post.value == r.value
        &&& post.chain@ == r.remaining
        &&& post.trace@ == pre.trace@ + r.trace
        &&& out == r.outcome
    }

    fn call(&self, cx: &mut Context) -> (out: Outcome) {
        let from = cx.value;
        cx.value = cx.value + self.amount;
        cx.trace.push(Event::Enter { from, to: cx.value });
        let out = cx.next();
        proof {
            lemma_run_restores_value(old(cx).chain@, (from + self.amount) as u64);
        }
        let exited = cx.value;
        cx.value = cx.value - self.amount;
        cx.trace.push(Event::Exit { from: exited, to: cx.value });
        proof {
            assert(cx.trace@ =~= old(cx).trace@ + run_frame(
                Handler::Offset(self.amount()),
                old(cx).chain@,
                old(cx).value,
            ).trace);
        }
        out
    }
}

/// The callable adapter: grants the handle capability to any plain function
/// or closure that reads the context value and resolves with an outcome.
///
/// The adapter is transparent: the outcome the callable produces is the
/// outcome of the call, uninspected and untransformed. A callable handler
/// cannot reach the continuation — the continuation is a mutable method of
/// the context, and the callable only receives the value — so an adapted
/// callable always acts as the final frame of its pass: a known sharp edge
/// of the pattern, documented rather than worked around.
pub struct FnHandler<F> {
    f: F,
}

impl<F: Fn(u64) -> Outcome + Send + Sync + 'static> FnHandler<F> {
    /// The adapted callable.
    pub closed spec fn callee(&self) -> F {
        self.f
    }

    /// Adapts `f`, preserving its behaviour exactly.
    pub fn new(f: F) -> (h: FnHandler<F>)
        ensures
            h.callee() == f,
    {
        FnHandler { f }
    }
}

impl<F: Fn(u64) -> Outcome + Send + Sync + 'static> Handle for FnHandler<F> {
    /// The callable must accept the current context value.
    open spec fn req(&self, cx: Context) -> bool {
        call_requires(self.callee(), (cx.value,))
    }

    /// One call leaves the value and the chain untouched, records that the
    /// pass was resolved here, and returns whatever the callable returned.
    open spec fn ens(&self, pre: Context, post: Context, out: Outcome) -> bool {
        &&& post.value == pre.value
        &&& post.chain@ == pre.chain@
        &&& post.trace@ == pre.trace@ + seq![Event::Handled { value: pre.value }]
        &&& call_ensures(self.callee(), (pre.value,), out)
    }

    fn call(&self, cx: &mut Context) -> (out: Outcome) {
        let out = (self.f)(cx.value);
        cx.trace.push(Event::Handled { value: cx.value });
        proof {
            assert(cx.trace@ =~= old(cx).trace@ + seq![
                Event::Handled { value: old(cx).value },
            ]);
        }
        out
    }
}

} // verus!
