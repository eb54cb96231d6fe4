use handle::context::Context;
use handle::handlers::FnHandler;
use handle::handlers::OffsetHandler;
use handle::Event;
use handle::Handle;
use handle::Handler;
use handle::Outcome;

// A hand-written stateful handler drives the outermost frame through the
// capability, wrapping the rest of the chain.
#[test]
fn stateful_handler_wraps_chain() {
    let h = OffsetHandler::new(5);
    let mut cx = Context::new(7, vec![Handler::Offset(2)]);
    let out = h.call(&mut cx);
    assert_eq!(out, Outcome::Terminal);
    assert_eq!(cx.value, 7);
    assert_eq!(
        cx.trace,
        vec![
            Event::Enter { from: 7, to: 12 },
            Event::Enter { from: 12, to: 14 },
            Event::Terminal { value: 14 },
            Event::Exit { from: 14, to: 12 },
            Event::Exit { from: 12, to: 7 },
        ]
    );
}

// The erased handler form satisfies the capability too: invoking it through
// the trait is invoking the same frame.
#[test]
fn erased_handler_through_trait() {
    let h = Handler::ShortCircuit;
    let mut cx = Context::new(3, vec![Handler::Offset(1)]);
    let out = h.call(&mut cx);
    assert_eq!(out, Outcome::Handled);
    assert_eq!(cx.value, 3);
    assert_eq!(cx.chain, vec![Handler::Offset(1)]);
    assert_eq!(cx.trace, vec![Event::Handled { value: 3 }]);
}

// The adapter grants the capability to a plain closure and is transparent:
// the outcome the closure produces is the outcome of the call. An adapted
// callable cannot reach the continuation, so it resolves its pass and the
// chain stays untouched.
#[test]
fn adapted_closure_short_circuits() {
    let h = FnHandler::new(|value: u64| {
        assert_eq!(value, 12);
        Outcome::Handled
    });
    let mut cx = Context::new(12, vec![Handler::Offset(4)]);
    let out = h.call(&mut cx);
    assert_eq!(out, Outcome::Handled);
    assert_eq!(cx.value, 12);
    assert_eq!(cx.chain, vec![Handler::Offset(4)]);
    assert_eq!(cx.trace, vec![Event::Handled { value: 12 }]);
}

// A plain function adapts just as a closure does.
fn inspect(value: u64) -> Outcome {
    if value == 0 {
        Outcome::Terminal
    } else {
        Outcome::Handled
    }
}

#[test]
fn adapted_function_preserves_outcome() {
    let h = FnHandler::new(inspect);
    let mut cx = Context::new(0, Vec::new());
    let out = h.call(&mut cx);
    assert_eq!(out, Outcome::Terminal);
    let mut cx = Context::new(9, Vec::new());
    let out = h.call(&mut cx);
    assert_eq!(out, Outcome::Handled);
}
