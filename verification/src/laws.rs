//! The laws a dispatch pass obeys, proved of the model in [`crate::chain`].

use crate::chain::chain_fits;
use crate::chain::lemma_run_restores_value;
use crate::chain::run;
use crate::chain::Handler;
use crate::chain::Outcome;
use vstd::prelude::*;

verus! {

/// Every handler in `chain` wraps its continuation (none short-circuits).
pub open spec fn all_offsets(chain: Seq<Handler>) -> bool {
    forall|i: int| 0 <= i < chain.len() ==> chain[i] is Offset
}

/// When no handler short-circuits, every handler runs: a pass over N
/// handlers hands the borrow onward exactly N times, so the trace holds one
/// enter event per handler, then exactly one terminal event — the
/// empty-chain outcome, resolved once and propagated unchanged through all
/// N frames — then one exit event per handler; the chain is fully consumed
/// and the value is restored.
pub proof fn lemma_no_short_circuit(chain: Seq<Handler>, value: u64)
    requires
        chain_fits(chain, value),
        all_offsets(chain),
    ensures
        ({
            let r = run(chain, value);
            &&& r.outcome == Outcome::Terminal
            &&& r.remaining == Seq::<Handler>::empty()
            &&& r.value == value
            &&& r.trace.len() == 2 * chain.len() + 1
            &&& (forall|i: int| 0 <= i < chain.len() ==> r.trace[i] is Enter)
            &&& r.trace[chain.len() as int] is Terminal
            &&& (forall|i: int| chain.len() < i < r.trace.len() ==> r.trace[i] is Exit)
        }),
    decreases chain.len(),
{
    if chain.len() > 0 {
        assert(chain[chain.len() - 1] is Offset);
        match chain.last() {
            Handler::Offset(amount) => {
                let rest = chain.drop_last();
                let entered = (value + amount) as u64;
                assert forall|i: int| 0 <= i < rest.len() implies rest[i] is Offset by {
                    assert(rest[i] == chain[i]);
                }
                lemma_no_short_circuit(rest, entered);
                lemma_run_restores_value(rest, entered);
            },
            Handler::ShortCircuit => {
            },
        }
    }
}

/// A short-circuiting handler ends its pass: the handlers positioned after
/// it (those the continuation would have reached next) observe zero
/// invocations — they stay in the chain untouched and no event of theirs is
/// recorded. The handlers already entered still run their after-phase in
/// reverse order: the trace holds one enter event per handler that ran,
/// then the single resolving event, then their exit events.
pub proof fn lemma_short_circuit_skips_rest(pre: Seq<Handler>, ran: Seq<Handler>, value: u64)
    requires
        chain_fits(pre + seq![Handler::ShortCircuit] + ran, value),
        all_offsets(ran),
    ensures
        ({
            let r = run(pre + seq![Handler::ShortCircuit] + ran, value);
            &&& r.outcome == Outcome::Handled
            &&& r.remaining == pre
            &&& r.value == value
            &&& r.trace.len() == 2 * ran.len() + 1
            &&& (forall|i: int| 0 <= i < ran.len() ==> r.trace[i] is Enter)
            &&& r.trace[ran.len() as int] is Handled
            &&& (forall|i: int| ran.len() < i < r.trace.len() ==> r.trace[i] is Exit)
        }),
    decreases ran.len(),
{
    let chain = pre + seq![Handler::ShortCircuit] + ran;
    if ran.len() == 0 {
        assert(chain.last() == Handler::ShortCircuit);
        assert(chain.drop_last() =~= pre);
    } else {
        assert(chain.last() == ran.last());
        assert(ran[ran.len() - 1] is Offset);
        match ran.last() {
            Handler::Offset(amount) => {
                let shorter = ran.drop_last();
                let entered = (value + amount) as u64;
                assert(chain.drop_last() =~= pre + seq![Handler::ShortCircuit] + shorter);
                assert forall|i: int| 0 <= i < shorter.len() implies shorter[i] is Offset by {
                    assert(shorter[i] == ran[i]);
                }
                lemma_short_circuit_skips_rest(pre, shorter, entered);
            },
            Handler::ShortCircuit => {
            },
        }
    }
}

/// A pass is a function of the chain and the starting value alone: the same
/// ordered collection, duplicated and dispatched over any number of
/// independent passes from equal starting values, produces identical
/// observable event sequences, values and outcomes every time.
pub proof fn lemma_pass_deterministic(
    chain_a: Seq<Handler>,
    value_a: u64,
    chain_b: Seq<Handler>,
    value_b: u64,
)
    requires
        chain_a == chain_b,
        value_a == value_b,
    ensures
        run(chain_a, value_a) == run(chain_b, value_b),
{
}

} // verus!
