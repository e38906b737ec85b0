use gatesim::builder::{BuilderError, GateLevelDescription};
use gatesim::circuit::Circuit;
use gatesim::operation::{InputHandler, InputWave, Operation, OutputCheck, OutputHandler, SignalID};
use gatesim::rz_module::RzModule;
use gatesim::sim;
use gatesim::signal::Signal;

const TPI: usize = 8;

#[test]
fn test_case_latch() {
    const ALWAYS_PRINT: bool = true;
    const PRINT_Q: bool = true;
    const PRINT_Q_NOT: bool = false;

    let mut latch = GateLevelDescription::new();

    let (s, r) = (latch.rz_alloc(), latch.rz_alloc());
    latch
        .mk_input(
            s,
            InputHandler::new(InputWave::Toggle { half_period: TPI as u128 * 2 }),
        )
        .unwrap();
    latch
        .mk_input(
            r,
            InputHandler::new(InputWave::Toggle { half_period: TPI as u128 * 4 }),
        )
        .unwrap();

    let (q, q_not) = (latch.rz_alloc(), latch.rz_alloc());
    latch.mk_nor(q, r, q_not).unwrap();
    latch.mk_nor(q_not, s, q).unwrap();

    let outputs = (latch.rz_alloc(), latch.rz_alloc());
    latch
        .mk_output(outputs.0, q, OutputHandler::new(OutputCheck::Sink))
        .unwrap();
    latch
        .mk_output(outputs.1, q_not, OutputHandler::new(OutputCheck::Sink))
        .unwrap();

    let mut circuit = Circuit::new(latch.into_desc(), TPI);
    for _ in 0..=256 {
        let events = circuit.tick();
        for event in events {
            let should_print = event.tick % TPI as u128;
            if (should_print == 0 || ALWAYS_PRINT) && PRINT_Q && event.slot == outputs.0 .0 {
                println!("Index: {} is {:?} on Tick: {}", event.slot, event.signal, event.tick)
            };
            if (should_print == 0 || ALWAYS_PRINT) && PRINT_Q_NOT && event.slot == outputs.1 .0 {
                println!("Index: {} is {:?} on Tick: {}", event.slot, event.signal, event.tick)
            };
        }
    }
    println!("Q -> {}, !Q -> {}", q.0, q_not.0);
}

#[test]
fn mod_test_case_latch() {
    // the same latch written directly as a flat description: two free
    // inputs, two cross-coupled NOR gates, two observation points
    let description = vec![
        Operation::Input(InputHandler::new(InputWave::Toggle { half_period: 2 })),
        Operation::Input(InputHandler::new(InputWave::Toggle { half_period: 4 })),
        Operation::Nor(SignalID(0), SignalID(3)),
        Operation::Nor(SignalID(1), SignalID(2)),
        Operation::Output(SignalID(2), OutputHandler::new(OutputCheck::Sink)),
        Operation::Output(SignalID(3), OutputHandler::new(OutputCheck::Sink)),
    ];

    let mut circuit = Circuit::new(description, TPI);
    for _ in 0..=256 {
        let events = circuit.tick();
        for event in events {
            if event.tick % TPI as u128 == 0 {
                println!("Index: {} is {:?} on Tick: {}", event.slot, event.signal, event.tick)
            };
        }
    }
    assert_eq!(circuit.get_tick(), 257);
}

#[test]
fn latch_race_injects_uncontrolled_values() {
    // the cross-coupled NOR latch driven by two slow toggles: the first
    // rising edge of the set input is forced uncontrolled, and with nothing
    // to stabilise the feedback path the uncontrolled marking dominates the
    // loop and reports the race on Q instead of settling silently
    let mut latch = GateLevelDescription::new();
    let (s, r) = (latch.rz_alloc(), latch.rz_alloc());
    latch
        .mk_input(
            s,
            InputHandler::new(InputWave::Toggle { half_period: TPI as u128 * 2 }),
        )
        .unwrap();
    latch
        .mk_input(
            r,
            InputHandler::new(InputWave::Toggle { half_period: TPI as u128 * 4 }),
        )
        .unwrap();
    let (q, q_not) = (latch.rz_alloc(), latch.rz_alloc());
    latch.mk_nor(q, r, q_not).unwrap();
    latch.mk_nor(q_not, s, q).unwrap();

    let mut circuit = Circuit::new(latch.into_desc(), TPI);
    let mut q_trace: Vec<Signal> = Vec::new();
    for _ in 0..=256 {
        circuit.tick();
        let (_desc, signals) = circuit.inspect();
        q_trace.push(signals[q.0]);
    }
    let saw_uncontrolled = q_trace
        .iter()
        .any(|&v| v == Signal::UncontrolledTrue || v == Signal::UncontrolledFalse);
    assert!(saw_uncontrolled, "no race-injected value ever reached Q");
    // the loop stabilises on the uncontrolled marking rather than on a
    // silently arbitrary definite value
    assert_eq!(q_trace[200], Signal::UncontrolledTrue);
}

#[test]
fn builder_full_assignment_has_no_fallback() {
    // allocating N slots and assigning all N produces a flat array of
    // exactly length N with no high-impedance fallback entries
    let mut b = GateLevelDescription::new();
    let a = b.rz_alloc();
    let c = b.rz_alloc();
    let d = b.rz_alloc();
    b.mk_input(a, InputHandler::new(InputWave::Constant(Signal::True))).unwrap();
    b.mk_not(c, a).unwrap();
    b.mk_and(d, a, c).unwrap();
    let desc = b.into_desc();
    assert_eq!(desc.len(), 3);
    assert!(matches!(desc[0], Operation::Input(_)));
    assert!(matches!(desc[1], Operation::Not(SignalID(0))));
    assert!(matches!(desc[2], Operation::And(SignalID(0), SignalID(1))));
    match &desc[0] {
        Operation::Input(h) => match &h.wave {
            InputWave::Constant(v) => assert_eq!(*v, Signal::True),
            other => panic!("unexpected wave {:?}", other),
        },
        other => panic!("unexpected op {:?}", other),
    }
}

#[test]
fn builder_partial_assignment_defaults_to_high_impedance() {
    // allocating N slots and assigning only M < N leaves exactly N - M
    // fallback entries, and those slots read HighImpedance forever
    let mut b = GateLevelDescription::new();
    let driven = b.rz_alloc();
    let dangling_a = b.rz_alloc();
    let dangling_b = b.rz_alloc();
    let gate = b.rz_alloc();
    b.mk_input(driven, InputHandler::new(InputWave::Constant(Signal::True))).unwrap();
    b.mk_and(gate, driven, dangling_a).unwrap();
    let desc = b.into_desc();
    assert_eq!(desc.len(), 4);
    let fallbacks = desc
        .iter()
        .filter(|op| match op {
            Operation::Input(h) => {
                matches!(h.wave, InputWave::Constant(Signal::HighImpedance))
            },
            _ => false,
        })
        .count();
    assert_eq!(fallbacks, 2);

    let mut circuit = Circuit::new(desc, 4);
    for _ in 0..50 {
        circuit.tick();
        let (_desc, signals) = circuit.inspect();
        assert_eq!(signals[dangling_a.0], Signal::HighImpedance);
        assert_eq!(signals[dangling_b.0], Signal::HighImpedance);
    }
}

#[test]
fn builder_rejects_bad_assignments() {
    let mut b = GateLevelDescription::new();
    let a = b.rz_alloc();
    b.mk_input(a, InputHandler::new(InputWave::Constant(Signal::False))).unwrap();
    // assigning an already-assigned slot is a duplicate assignment
    assert_eq!(
        b.mk_input(a, InputHandler::new(InputWave::Constant(Signal::True))),
        Err(BuilderError::DuplicateAssignment)
    );
    // assigning a slot that was never allocated is refused too
    assert_eq!(
        b.mk_input(SignalID(99), InputHandler::new(InputWave::Constant(Signal::True))),
        Err(BuilderError::UnallocatedLocation)
    );
    // the slot keeps its first assignment
    let desc = b.into_desc();
    match &desc[0] {
        Operation::Input(h) => match &h.wave {
            InputWave::Constant(v) => assert_eq!(*v, Signal::False),
            other => panic!("unexpected wave {:?}", other),
        },
        other => panic!("unexpected op {:?}", other),
    }
}

#[test]
fn rz_module_builds_the_same_description() {
    let mut m = RzModule::new();
    let a = m.rz_alloc();
    let b = m.rz_alloc();
    let c = m.rz_alloc();
    m.mk_input(a, InputHandler::new(InputWave::Constant(Signal::True))).unwrap();
    m.mk_input(b, InputHandler::new(InputWave::Constant(Signal::False))).unwrap();
    m.mk_xor(c, (a, b)).unwrap();
    let desc = m.into_desc();
    assert_eq!(desc.len(), 3);
    assert!(matches!(desc[2], Operation::Xor(SignalID(0), SignalID(1))));
}

#[test]
fn input_sampling_is_decoupled_from_ticks() {
    // with ticks_per_input = T the handler is consulted on raw ticks
    // 0, T, 2T, ... with logical tick raw / T; between samples the slot
    // holds its value bit-identically, and a clean False-to-True transition
    // is forced to UncontrolledTrue
    let t: usize = 4;
    let desc = vec![Operation::Input(InputHandler::new(InputWave::Toggle { half_period: 1 }))];
    let mut circuit = Circuit::new(desc, t);

    let mut observed: Vec<Signal> = Vec::new();
    for _ in 0..12 {
        circuit.tick();
        let (_d, signals) = circuit.inspect();
        observed.push(signals[0]);
    }
    // logical ticks 0, 1, 2 give False, True, False; the first rising edge
    // lands on a held False and is forced uncontrolled, the falling edge
    // lands on UncontrolledTrue and passes through unchanged
    let expected = vec![
        Signal::False,
        Signal::False,
        Signal::False,
        Signal::False,
        Signal::UncontrolledTrue,
        Signal::UncontrolledTrue,
        Signal::UncontrolledTrue,
        Signal::UncontrolledTrue,
        Signal::False,
        Signal::False,
        Signal::False,
        Signal::False,
    ];
    assert_eq!(observed, expected);
}

#[test]
fn outputs_report_every_tick() {
    // Output slots are not rate-limited the way inputs are: one event per
    // output slot per tick, carrying the source's prior value
    let desc = vec![
        Operation::Input(InputHandler::new(InputWave::Constant(Signal::True))),
        Operation::Output(SignalID(0), OutputHandler::new(OutputCheck::Sink)),
    ];
    let mut circuit = Circuit::new(desc, 3);
    let first = circuit.tick();
    assert_eq!(first.len(), 1);
    assert_eq!(first[0].slot, 1);
    assert_eq!(first[0].tick, 0);
    // the output copies the source's value from the buffer before the tick
    assert_eq!(first[0].signal, Signal::Undefined);
    let second = circuit.tick();
    assert_eq!(second.len(), 1);
    assert_eq!(second[0].tick, 1);
    assert_eq!(second[0].signal, Signal::True);
}

#[test]
fn sim_runs_the_requested_ticks() {
    let desc = vec![
        Operation::Input(InputHandler::new(InputWave::Constant(Signal::True))),
        Operation::Not(SignalID(0)),
    ];
    let mut circuit = Circuit::new(desc, 2);
    let snapshot = sim(&mut circuit, 10).unwrap();
    assert_eq!(circuit.get_tick(), 10);
    assert_eq!(snapshot, vec![Signal::True, Signal::False]);
}
