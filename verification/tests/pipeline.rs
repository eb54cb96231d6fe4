use handle::context::Context;
use handle::Event;
use handle::Handler;
use handle::Outcome;

#[test]
fn empty_chain_terminal() {
    let mut cx = Context::new(7, Vec::new());
    let out = cx.next();
    assert_eq!(out, Outcome::Terminal);
    assert_eq!(cx.value, 7);
    assert_eq!(cx.trace, vec![Event::Terminal { value: 7 }]);
    assert!(cx.chain.is_empty());
}

// The concrete onion scenario: offsets 1, 2 and 3 around the terminal frame,
// entered outside-in and exited inside-out, the value restored at each step.
#[test]
fn onion_scenario() {
    let chain = vec![Handler::Offset(3), Handler::Offset(2), Handler::Offset(1)];
    let mut cx = Context::new(0, chain);
    let out = cx.next();
    assert_eq!(out, Outcome::Terminal);
    assert_eq!(cx.value, 0);
    assert!(cx.chain.is_empty());
    assert_eq!(
        cx.trace,
        vec![
            Event::Enter { from: 0, to: 1 },
            Event::Enter { from: 1, to: 3 },
            Event::Enter { from: 3, to: 6 },
            Event::Terminal { value: 6 },
            Event::Exit { from: 6, to: 3 },
            Event::Exit { from: 3, to: 1 },
            Event::Exit { from: 1, to: 0 },
        ]
    );
}

// Symmetry: each exit returns the value to what the matching enter saw.
#[test]
fn onion_symmetry() {
    let chain = vec![
        Handler::Offset(8),
        Handler::Offset(5),
        Handler::Offset(2),
        Handler::Offset(11),
    ];
    let mut cx = Context::new(100, chain);
    cx.next();
    let n = cx.trace.len();
    assert_eq!(n, 9);
    for i in 0..4 {
        let (enter_from, enter_to) = match cx.trace[i] {
            Event::Enter { from, to } => (from, to),
            e => panic!("expected an enter event, got {:?}", e),
        };
        let (exit_from, exit_to) = match cx.trace[n - 1 - i] {
            Event::Exit { from, to } => (from, to),
            e => panic!("expected an exit event, got {:?}", e),
        };
        assert_eq!(exit_to, enter_from);
        assert_eq!(exit_from, enter_to);
    }
    assert_eq!(cx.value, 100);
}

// A chain of N handlers where none short-circuits: one enter per handler,
// exactly one terminal event, one exit per handler.
#[test]
fn full_chain_counts() {
    let chain = vec![
        Handler::Offset(1),
        Handler::Offset(1),
        Handler::Offset(1),
        Handler::Offset(1),
    ];
    let mut cx = Context::new(0, chain);
    let out = cx.next();
    assert_eq!(out, Outcome::Terminal);
    let enters = cx
        .trace
        .iter()
        .filter(|e| matches!(e, Event::Enter { .. }))
        .count();
    let terminals = cx
        .trace
        .iter()
        .filter(|e| matches!(e, Event::Terminal { .. }))
        .count();
    let exits = cx
        .trace
        .iter()
        .filter(|e| matches!(e, Event::Exit { .. }))
        .count();
    assert_eq!(enters, 4);
    assert_eq!(terminals, 1);
    assert_eq!(exits, 4);
    assert_eq!(cx.trace.len(), 9);
}

// A short-circuiting handler ends the pass: the handlers below it in the
// chain are never invoked and stay in the chain, while the handlers already
// entered run their after-phase in reverse order.
#[test]
fn short_circuit_scenario() {
    let chain = vec![
        Handler::Offset(9),
        Handler::ShortCircuit,
        Handler::Offset(2),
        Handler::Offset(1),
    ];
    let mut cx = Context::new(0, chain);
    let out = cx.next();
    assert_eq!(out, Outcome::Handled);
    assert_eq!(cx.value, 0);
    assert_eq!(cx.chain, vec![Handler::Offset(9)]);
    assert_eq!(
        cx.trace,
        vec![
            Event::Enter { from: 0, to: 1 },
            Event::Enter { from: 1, to: 3 },
            Event::Handled { value: 3 },
            Event::Exit { from: 3, to: 1 },
            Event::Exit { from: 1, to: 0 },
        ]
    );
}

// The same ordered collection, duplicated and dispatched across three
// independent passes from fresh contexts, produces identical traces.
// Nine offset handlers take the value from 0 to 12, and the last handler
// resolves the pass without invoking the continuation.
#[test]
fn three_passes_replay() {
    let chain = vec![
        Handler::ShortCircuit,
        Handler::Offset(3),
        Handler::Offset(2),
        Handler::Offset(1),
        Handler::Offset(1),
        Handler::Offset(1),
        Handler::Offset(1),
        Handler::Offset(1),
        Handler::Offset(1),
        Handler::Offset(1),
    ];
    let mut traces = Vec::new();
    for _ in 0..3 {
        let mut cx = Context::new(0, chain.clone());
        let out = cx.next();
        assert_eq!(out, Outcome::Handled);
        assert_eq!(cx.value, 0);
        assert!(cx.chain.is_empty());
        assert!(cx.trace.contains(&Event::Handled { value: 12 }));
        traces.push(cx.trace);
    }
    assert_eq!(traces[0], traces[1]);
    assert_eq!(traces[1], traces[2]);
    assert_eq!(traces[0].len(), 19);
}
