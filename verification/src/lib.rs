//! A handle capability for composable context pipelines.
//!
//! A pipeline is an ordered chain of handlers sharing one mutable context.
//! The continuation ([`Context::next`]) pops the last handler off the chain
//! and invokes it; each handler may run code before and after invoking the
//! continuation in turn (onion execution), or resolve at once and skip the
//! rest of the chain (short-circuit). The [`Handle`] trait is the capability
//! a value must satisfy to act as one pipeline step, and the adapter
//! [`handlers::FnHandler`] grants it to plain callables.
//!
//! Every pass is specified against the model in [`chain`], and the laws the
//! pipeline obeys are proved in [`laws`].

pub mod chain;
pub mod context;
pub mod handlers;
pub mod laws;

pub use chain::Event;
pub use chain::Handler;
pub use chain::Outcome;
pub use context::Context;

use vstd::prelude::*;

verus! {

/// The handle capability: what a value must satisfy to act as one pipeline
/// step.
///
/// A handler is borrowed immutably for the duration of the call, so its own
/// state is fixed once it is registered; the context is borrowed mutably and
/// exclusively, so exactly one frame holds it at any instant and no locking
/// is needed. Each implementation states its own contract through the two
/// spec functions: `req` says when it may be invoked, `ens` pins what the
/// call does to the context and what outcome it returns. The capability
/// itself neither inspects nor transforms the outcome — whatever a frame
/// resolves with flows upward unchanged.
pub trait Handle where Self: Send + Sync + 'static {
    /// When this handler may be invoked on `cx`.
    spec fn req(&self, cx: Context) -> bool;

    /// What one call does: how `post` and `out` follow from `pre`.
    spec fn ens(&self, pre: Context, post: Context, out: Outcome) -> bool;

    /// Invokes the handler within the given context and returns its outcome.
    ///
    /// The handler may invoke the continuation ([`Context::next`]) zero or
    /// one times, running code both before and after it; the events it adds
    /// to the trace record that order.
    fn call(&self, cx: &mut Context) -> (out: Outcome)
        requires
            self.req(*old(cx)),
        ensures
            self.ens(*old(cx), *final(cx), out),
    ;
}

} // verus!
