use gatesim::builder::GateLevelDescription;
use gatesim::cells::{output, Assert, Clock, DeltaAssert, Inverter, ModuleInstance, NorGate, OutputChannel, Print, Waveform, XorGate};
use gatesim::circuit::Circuit;
use gatesim::count::PrimitiveCount;
use gatesim::layout::LayoutStep;
use gatesim::constructs::{d_latch, latch};
use gatesim::netlist::{
    Address, Cell, CellContents, CellHandle, CellInterface, Drain, Module, ModuleHandle, Netlist,
    NetlistLowerError, Port, PortHandle, PortType, PrimitiveType, Source,
};
use gatesim::rz_module::RzModule;
use gatesim::operation::{InputHandler, InputWave, Operation, OutputCheck, OutputHandler, SignalID};
use gatesim::signal::Signal;

fn wire(module: &mut Module, drain_cell: usize, drain_port: usize, src_cell: usize, src_port: usize) {
    let fresh = module.mk_wire(
        Drain(Address(CellHandle(drain_cell), PortHandle(drain_port))),
        Source(Address(CellHandle(src_cell), PortHandle(src_port))),
    );
    assert!(fresh, "two wires drove the same drain");
}

#[test]
/// instantiates a 2 gate nor latch and simulates it to test that sequential
/// behavior including race conditions is preserved
fn latch_lower_and_sim() {
    let mut latch = Module::new("Latch");

    // cell 00 S
    latch.mk_cell(
        Waveform {
            setup_time: 0,
            waveform: vec![
                Signal::False, // (S:0, R:0)
                Signal::False,
                Signal::True, // (S:1, R:0)
                Signal::True,
                Signal::False, // (S:0, R:0)
                Signal::False,
                Signal::False, // (S:0, R:1)
                Signal::False,
                Signal::False, // (S:0, R:0)
                Signal::False,
                Signal::True, // (S:1, R:1)
                Signal::True,
            ],
        }
        .cell(),
    );
    // cell 01 R
    latch.mk_cell(
        Waveform {
            setup_time: 0,
            waveform: vec![
                Signal::False, // (S:0, R:0)
                Signal::False,
                Signal::False, // (S:1, R:0)
                Signal::False,
                Signal::False, // (S:0, R:0)
                Signal::False,
                Signal::True, // (S:0, R:1)
                Signal::True,
                Signal::False, // (S:0, R:0)
                Signal::False,
                Signal::True, // (S:1, R:1)
                Signal::True,
            ],
        }
        .cell(),
    );
    // cell 02
    latch.mk_cell(NorGate {}.cell());
    // cell 03
    latch.mk_cell(NorGate {}.cell());

    // Describe waveform to assert on Q
    let test_waveform = vec![
        (0, Signal::UncontrolledTrue),
        (1, Signal::UncontrolledFalse),
        (2, Signal::UncontrolledTrue),
        (3, Signal::UncontrolledFalse),
        (4, Signal::UncontrolledFalse),
        (13, Signal::UncontrolledTrue),
        (20, Signal::UncontrolledFalse),
        (22, Signal::False),
    ];

    // cell 04 Q Assert
    latch.mk_cell(
        DeltaAssert { waveform: test_waveform, period: 24, setup_time: 6, phase_offset: 2 }.cell(),
    );

    // connect nor gates to clock inputs
    wire(&mut latch, 2, 1, 0, 0);
    wire(&mut latch, 3, 1, 1, 0);
    // connect nor gates to eachother creating feedback path
    wire(&mut latch, 2, 2, 3, 0);
    wire(&mut latch, 3, 2, 2, 0);
    // connect Testing Assert to Q
    wire(&mut latch, 4, 1, 2, 0);

    let netlist = Netlist { modules: vec![latch] };

    let mut circuit = netlist.as_circuit(ModuleHandle(0), 2).unwrap();

    for _idx in 0..240 {
        let events = circuit.tick();
        assert!(circuit.check_outputs(&events), "Q diverged from the expected edge list");
    }
}

/// Wires up one full adder out of two XOR, two AND and one OR cell. The
/// first five cells hold the a, b and carry-in drivers plus the sum and
/// carry expectations, in that order.
fn full_adder_module(a: Signal, b: Signal, cin: Signal, z: Signal, cout: Signal) -> Module {
    let mut m = Module::new("FullAdder");
    // cells 00-02: the three operand drivers
    m.mk_cell(Waveform { setup_time: 0, waveform: vec![a] }.cell());
    m.mk_cell(Waveform { setup_time: 0, waveform: vec![b] }.cell());
    m.mk_cell(Waveform { setup_time: 0, waveform: vec![cin] }.cell());
    // cell 03: a ^ b, cell 04: z
    m.mk_cell(XorGate {}.cell());
    m.mk_cell(XorGate {}.cell());
    // cell 05: a & b, cell 06: cin & (a ^ b)
    m.mk_cell(Cell::Primitive(PrimitiveType::And));
    m.mk_cell(Cell::Primitive(PrimitiveType::And));
    // cell 07: carry out
    m.mk_cell(Cell::Primitive(PrimitiveType::Or));
    // cells 08-09: the expectations on z and carry out
    m.mk_cell(Assert { setup_time: 16, waveform: vec![z] }.cell());
    m.mk_cell(Assert { setup_time: 16, waveform: vec![cout] }.cell());

    wire(&mut m, 3, 1, 0, 0);
    wire(&mut m, 3, 2, 1, 0);
    wire(&mut m, 4, 1, 3, 0);
    wire(&mut m, 4, 2, 2, 0);
    wire(&mut m, 5, 1, 0, 0);
    wire(&mut m, 5, 2, 1, 0);
    wire(&mut m, 6, 1, 2, 0);
    wire(&mut m, 6, 2, 3, 0);
    wire(&mut m, 7, 1, 5, 0);
    wire(&mut m, 7, 2, 6, 0);
    wire(&mut m, 8, 1, 4, 0);
    wire(&mut m, 9, 1, 7, 0);
    m
}

#[test]
/// instantiate a full adder and test that it instantiates correctly.
fn test_case_full_adder() {
    let cases = [
        (Signal::False, Signal::False, Signal::False, Signal::False, Signal::False),
        (Signal::True, Signal::False, Signal::False, Signal::True, Signal::False),
        (Signal::True, Signal::True, Signal::False, Signal::False, Signal::True),
        (Signal::True, Signal::True, Signal::True, Signal::True, Signal::True),
    ];
    for &(a, b, cin, z, cout) in cases.iter() {
        let netlist = Netlist { modules: vec![full_adder_module(a, b, cin, z, cout)] };

        // every cell is primitive, so counting is definite and the flat
        // array holds exactly one operation per cell
        assert_eq!(netlist.count_primitives(ModuleHandle(0)), PrimitiveCount::Definite(10));

        let mut circuit = netlist.as_circuit(ModuleHandle(0), 4).unwrap();
        {
            let (desc, _signals) = circuit.inspect();
            assert_eq!(desc.len(), 10);
        }
        for _ in 0..64 {
            let events = circuit.tick();
            assert!(circuit.check_outputs(&events), "adder outputs diverged");
        }
    }
}

#[test]
/// the same adder assembled by hand on the flat builder.
fn mod_test_case_full_adder() {
    let combos = [
        (Signal::False, Signal::False, Signal::False),
        (Signal::False, Signal::True, Signal::False),
        (Signal::False, Signal::True, Signal::True),
        (Signal::True, Signal::True, Signal::True),
    ];
    for &(a_in, b_in, c_in) in combos.iter() {
        let mut gld = GateLevelDescription::new();
        let a = gld.rz_alloc();
        let b = gld.rz_alloc();
        let c = gld.rz_alloc();
        let ab = gld.rz_alloc();
        let z = gld.rz_alloc();
        let and_ab = gld.rz_alloc();
        let and_c = gld.rz_alloc();
        let cout = gld.rz_alloc();
        gld.mk_input(a, InputHandler::new(InputWave::Constant(a_in))).unwrap();
        gld.mk_input(b, InputHandler::new(InputWave::Constant(b_in))).unwrap();
        gld.mk_input(c, InputHandler::new(InputWave::Constant(c_in))).unwrap();
        gld.mk_xor(ab, a, b).unwrap();
        gld.mk_xor(z, ab, c).unwrap();
        gld.mk_and(and_ab, a, b).unwrap();
        gld.mk_and(and_c, c, ab).unwrap();
        gld.mk_or(cout, and_ab, and_c).unwrap();

        let mut circuit = Circuit::new(gld.into_desc(), 4);
        for _ in 0..32 {
            circuit.tick();
        }
        let (_desc, signals) = circuit.inspect();
        let bit = |s: Signal| s == Signal::True;
        let total = bit(a_in) as u8 + bit(b_in) as u8 + bit(c_in) as u8;
        let expect_z = if total % 2 == 1 { Signal::True } else { Signal::False };
        let expect_cout = if total >= 2 { Signal::True } else { Signal::False };
        assert_eq!(signals[z.0], expect_z, "sum for {:?}", (a_in, b_in, c_in));
        assert_eq!(signals[cout.0], expect_cout, "carry for {:?}", (a_in, b_in, c_in));
    }
}

/// A full-adder module with a proper port list, meant to be instantiated:
/// ports are sum out, carry out, then the a, b and carry-in inputs.
fn full_adder_definition() -> Module {
    let mut m = Module::new("fa");
    // cells 00-02: proxies standing for the three input ports
    m.mk_cell(Cell::InputProxy(PortHandle(2)));
    m.mk_cell(Cell::InputProxy(PortHandle(3)));
    m.mk_cell(Cell::InputProxy(PortHandle(4)));
    // cell 03: a ^ b, cell 04: z, cell 05: a & b, cell 06: cin & (a ^ b),
    // cell 07: carry out
    m.mk_cell(XorGate {}.cell());
    m.mk_cell(XorGate {}.cell());
    m.mk_cell(Cell::Primitive(PrimitiveType::And));
    m.mk_cell(Cell::Primitive(PrimitiveType::And));
    m.mk_cell(Cell::Primitive(PrimitiveType::Or));

    wire(&mut m, 3, 1, 0, 0);
    wire(&mut m, 3, 2, 1, 0);
    wire(&mut m, 4, 1, 3, 0);
    wire(&mut m, 4, 2, 2, 0);
    wire(&mut m, 5, 1, 0, 0);
    wire(&mut m, 5, 2, 1, 0);
    wire(&mut m, 6, 1, 2, 0);
    wire(&mut m, 6, 2, 3, 0);
    wire(&mut m, 7, 1, 5, 0);
    wire(&mut m, 7, 2, 6, 0);

    let port = |name: &str, port_type, cell: usize, p: usize| Port {
        name: name.to_string(),
        port_type,
        local_location: Address(CellHandle(cell), PortHandle(p)),
    };
    m.portlist.push(port("z", PortType::Output, 4, 0));
    m.portlist.push(port("cout", PortType::Output, 7, 0));
    m.portlist.push(port("a", PortType::Input, 0, 0));
    m.portlist.push(port("b", PortType::Input, 1, 0));
    m.portlist.push(port("cin", PortType::Input, 2, 0));
    m
}

/// A two-bit ripple adder: one shared full-adder definition instantiated
/// twice, with the first stage's carry wired into the second stage.
fn ripple_adder_netlist(
    a: u8,
    b: u8,
    z0: Signal,
    z1: Signal,
    cout: Signal,
) -> Netlist {
    let level = |bit: bool| if bit { Signal::True } else { Signal::False };
    let mut top = Module::new("Ripple");
    // cells 00-03: the operand bits, cell 04: carry in
    top.mk_cell(Waveform { setup_time: 0, waveform: vec![level(a & 1 != 0)] }.cell());
    top.mk_cell(Waveform { setup_time: 0, waveform: vec![level(b & 1 != 0)] }.cell());
    top.mk_cell(Waveform { setup_time: 0, waveform: vec![level(a & 2 != 0)] }.cell());
    top.mk_cell(Waveform { setup_time: 0, waveform: vec![level(b & 2 != 0)] }.cell());
    top.mk_cell(Waveform { setup_time: 0, waveform: vec![Signal::False] }.cell());
    // cells 05-06: the two adder stages
    top.mk_cell(Cell::ModuleLink(ModuleHandle(1)));
    top.mk_cell(Cell::ModuleLink(ModuleHandle(1)));
    // cells 07-09: expectations on the two sum bits and the carry out
    top.mk_cell(Assert { setup_time: 32, waveform: vec![z0] }.cell());
    top.mk_cell(Assert { setup_time: 32, waveform: vec![z1] }.cell());
    top.mk_cell(Assert { setup_time: 32, waveform: vec![cout] }.cell());

    // first stage reads the low bits and the constant carry in
    wire(&mut top, 5, 2, 0, 0);
    wire(&mut top, 5, 3, 1, 0);
    wire(&mut top, 5, 4, 4, 0);
    // second stage reads the high bits and the first stage's carry
    wire(&mut top, 6, 2, 2, 0);
    wire(&mut top, 6, 3, 3, 0);
    wire(&mut top, 6, 4, 5, 1);
    // expectations watch the sums and the final carry
    wire(&mut top, 7, 1, 5, 0);
    wire(&mut top, 8, 1, 6, 0);
    wire(&mut top, 9, 1, 6, 1);

    Netlist { modules: vec![top, full_adder_definition()] }
}

#[test]
/// instantiate a 2 bit ripple adder and test that it instantiates correctly.
fn test_case_ripple_adder() {
    let netlist = ripple_adder_netlist(3, 1, Signal::False, Signal::False, Signal::True);

    // the shared definition is counted once per instantiation: eight local
    // primitives plus two times the five gates of one adder
    assert_eq!(netlist.count_primitives(ModuleHandle(0)), PrimitiveCount::Definite(18));

    let mut circuit = netlist.as_circuit(ModuleHandle(0), 4).unwrap();
    {
        // both instantiations received independently allocated slots: one
        // operation per primitive in the expansion, nothing aliased
        let (desc, _signals) = circuit.inspect();
        assert_eq!(desc.len(), 18);
    }
    for _ in 0..128 {
        let events = circuit.tick();
        assert!(circuit.check_outputs(&events), "ripple adder outputs diverged");
    }
}

#[test]
/// a second operand pattern through the same two stage adder.
fn mod_test_case_ripple_adder() {
    // 2 + 3 = 5: low sum 1, high sum 0, carry out 1
    let netlist = ripple_adder_netlist(2, 3, Signal::True, Signal::False, Signal::True);
    let mut circuit = netlist.as_circuit(ModuleHandle(0), 4).unwrap();
    for _ in 0..128 {
        let events = circuit.tick();
        assert!(circuit.check_outputs(&events), "ripple adder outputs diverged");
    }
}

#[test]
fn full_adder() {
    // the flat full adder over every operand combination
    for bits in 0u8..8 {
        let level = |bit: bool| if bit { Signal::True } else { Signal::False };
        let a = level(bits & 1 != 0);
        let b = level(bits & 2 != 0);
        let cin = level(bits & 4 != 0);
        let total = (bits & 1) + ((bits >> 1) & 1) + ((bits >> 2) & 1);
        let z = level(total % 2 == 1);
        let cout = level(total >= 2);
        let netlist = Netlist { modules: vec![full_adder_module(a, b, cin, z, cout)] };
        let mut circuit = netlist.as_circuit(ModuleHandle(0), 4).unwrap();
        for _ in 0..64 {
            let events = circuit.tick();
            assert!(circuit.check_outputs(&events), "case {:?}", (a, b, cin));
        }
    }
}

#[test]
fn ripple_adder() {
    // the hierarchical adder over every pair of two-bit operands
    for a in 0u8..4 {
        for b in 0u8..4 {
            let total = a + b;
            let level = |bit: bool| if bit { Signal::True } else { Signal::False };
            let netlist = ripple_adder_netlist(
                a,
                b,
                level(total & 1 != 0),
                level(total & 2 != 0),
                level(total & 4 != 0),
            );
            let mut circuit = netlist.as_circuit(ModuleHandle(0), 4).unwrap();
            for _ in 0..128 {
                let events = circuit.tick();
                assert!(circuit.check_outputs(&events), "case {} + {}", a, b);
            }
        }
    }
}

#[test]
fn cyclic_netlist_is_detected_not_expanded() {
    // module A instantiates B, B instantiates C, and C instantiates A:
    // counting must report indefinite instead of hanging
    let ring = |name: &str, next: usize| {
        let mut m = Module::new(name);
        m.mk_cell(Cell::Primitive(PrimitiveType::Not));
        m.mk_cell(Cell::ModuleLink(ModuleHandle(next)));
        m
    };
    let netlist = Netlist { modules: vec![ring("A", 1), ring("B", 2), ring("C", 0)] };

    assert_eq!(netlist.count_primitives(ModuleHandle(0)), PrimitiveCount::Indefinite);

    // lowering the cycle is refused rather than recursed into forever
    assert!(matches!(
        netlist.as_circuit(ModuleHandle(0), 2),
        Err(NetlistLowerError::RecursionLimit)
    ));

    // the layout walk stays safely consumable for a bounded prefix
    let mut layout = netlist.cell_layout(ModuleHandle(0));
    let mut paths: Vec<Vec<CellHandle>> = Vec::new();
    let mut steps: usize = 0;
    while paths.len() < 50 && steps < 10_000 {
        match layout.step(&netlist) {
            LayoutStep::Path(p) => paths.push(p),
            LayoutStep::Working => {},
            LayoutStep::Exhausted => break,
        }
        steps += 1;
    }
    assert_eq!(paths.len(), 50);
    // each path one level deeper than the one before, always ending at the
    // inverter that sits first in each ring module
    assert_eq!(paths[0], vec![CellHandle(0)]);
    assert_eq!(paths[1], vec![CellHandle(1), CellHandle(0)]);
    assert_eq!(paths[49].len(), 50);
}

#[test]
fn cell_layout_walks_a_finite_design_to_exhaustion() {
    let netlist = ripple_adder_netlist(0, 0, Signal::False, Signal::False, Signal::False);
    let mut layout = netlist.cell_layout(ModuleHandle(0));
    let mut paths: Vec<Vec<CellHandle>> = Vec::new();
    let mut steps: usize = 0;
    loop {
        match layout.step(&netlist) {
            LayoutStep::Path(p) => paths.push(p),
            LayoutStep::Working => {},
            LayoutStep::Exhausted => break,
        }
        steps += 1;
        assert!(steps < 10_000, "walk failed to terminate");
    }
    // one path per primitive of the full expansion, proxies skipped; the
    // count agrees with count_primitives
    assert_eq!(paths.len(), 18);
    // the first paths are the top module's own drivers
    assert_eq!(paths[0], vec![CellHandle(0)]);
    // paths through the stages are two levels deep
    assert!(paths.iter().any(|p| p == &vec![CellHandle(5), CellHandle(3)]));
    assert!(paths.iter().any(|p| p == &vec![CellHandle(6), CellHandle(7)]));
}

#[test]
fn lowering_error_cases() {
    // an empty module cannot be instantiated
    let netlist = Netlist { modules: vec![Module::new("empty")] };
    assert!(matches!(
        netlist.as_circuit(ModuleHandle(0), 2),
        Err(NetlistLowerError::EmptyModule)
    ));

    // a handle outside the design does not exist
    assert!(matches!(
        netlist.as_circuit(ModuleHandle(7), 2),
        Err(NetlistLowerError::ModuleHandleDNE)
    ));

    // a link to a module outside the design is caught mid-lowering
    let mut dangling = Module::new("dangling");
    dangling.mk_cell(Cell::ModuleLink(ModuleHandle(9)));
    let netlist = Netlist { modules: vec![dangling] };
    assert!(matches!(
        netlist.as_circuit(ModuleHandle(0), 2),
        Err(NetlistLowerError::ModuleHandleDNE)
    ));

    // a caller that supplies fewer port allocations than the module has
    // ports is refused
    let mut gld = GateLevelDescription::new();
    let mut with_ports = Module::new("with_ports");
    with_ports.mk_cell(Cell::Primitive(PrimitiveType::Not));
    with_ports.portlist.push(Port {
        name: "p".to_string(),
        port_type: PortType::Output,
        local_location: Address(CellHandle(0), PortHandle(0)),
    });
    let netlist = Netlist { modules: vec![with_ports] };
    assert_eq!(
        netlist.lower(&mut gld, &netlist.modules[0], Vec::new()),
        Err(NetlistLowerError::PortNotAllocated)
    );

    // two ports seeded onto the same flat slot make two cells drive one
    // location; the second assignment is refused
    let mut gld = GateLevelDescription::new();
    let shared = gld.rz_alloc();
    let mut aliased = Module::new("aliased");
    aliased.mk_cell(Cell::Primitive(PrimitiveType::Not));
    aliased.mk_cell(Cell::Primitive(PrimitiveType::Not));
    let out_port = |cell: usize| Port {
        name: "q".to_string(),
        port_type: PortType::Output,
        local_location: Address(CellHandle(cell), PortHandle(0)),
    };
    aliased.portlist.push(out_port(0));
    aliased.portlist.push(out_port(1));
    let netlist = Netlist { modules: vec![aliased] };
    assert_eq!(
        netlist.lower(&mut gld, &netlist.modules[0], vec![shared, shared]),
        Err(NetlistLowerError::ConflictingDrive)
    );
}

#[test]
fn input_proxies_allocate_nothing() {
    // a proxy cell builds nothing and allocates nothing: here the
    // inverter's wired input lazily allocates a slot for the proxy's
    // address, which stays undriven and reads as the fallback input
    let mut m = Module::new("proxied");
    m.mk_cell(Cell::InputProxy(PortHandle(0)));
    m.mk_cell(Cell::Primitive(PrimitiveType::Not));
    wire(&mut m, 1, 1, 0, 0);
    let netlist = Netlist { modules: vec![m] };
    let circuit = netlist.as_circuit(ModuleHandle(0), 2).unwrap();
    let (desc, _signals) = circuit.inspect();
    assert_eq!(desc.len(), 2);
    assert!(matches!(desc[0], Operation::Not(SignalID(1))));
    match &desc[1] {
        Operation::Input(h) => {
            assert!(matches!(h.wave, InputWave::Constant(Signal::HighImpedance)))
        },
        other => panic!("unexpected op {:?}", other),
    }
}

#[test]
fn operations_clone_faithfully() {
    let op = Operation::Input(InputHandler::new(InputWave::Waveform {
        setup_time: 1,
        samples: vec![Signal::True, Signal::False],
    }));
    match op.clone() {
        Operation::Input(h) => {
            assert_eq!(h.sample(0), Signal::Undefined);
            assert_eq!(h.sample(1), Signal::True);
            assert_eq!(h.sample(2), Signal::False);
        },
        other => panic!("unexpected op {:?}", other),
    }
    let gate = Operation::Nand(SignalID(3), SignalID(7));
    assert!(matches!(gate.clone(), Operation::Nand(SignalID(3), SignalID(7))));
}

#[test]
fn single_driver_rule_is_enforced() {
    let mut m = Module::new("m");
    let d = Drain(Address(CellHandle(1), PortHandle(1)));
    let s1 = Source(Address(CellHandle(0), PortHandle(0)));
    let s2 = Source(Address(CellHandle(2), PortHandle(0)));
    assert!(m.mk_wire(d, s1));
    assert!(!m.mk_wire(d, s2), "a second driver for the same drain was accepted");
    assert_eq!(m.wires.len(), 1);
    assert_eq!(m.wires[0], (d, s1));
}

#[test]
fn cell_descriptions_expose_contents_and_interfaces() {
    match (NorGate {}).contents() {
        CellContents::Primitive(PrimitiveType::Nor) => {},
        other => panic!("unexpected contents {:?}", other),
    }
    match (Inverter {}).interface() {
        CellInterface::Builtin(ports) => {
            assert_eq!(ports.len(), 2);
            assert_eq!(ports[0].port_type, PortType::Output);
            assert_eq!(ports[1].port_type, PortType::Input);
        },
        other => panic!("unexpected interface {:?}", other),
    }
    match (Clock { period: 8, pulse_width: 4 }).contents() {
        CellContents::Primitive(PrimitiveType::Input(h)) => match h.wave {
            InputWave::Clock { period, pulse_width } => {
                assert_eq!(period, 8);
                assert_eq!(pulse_width, 4);
            },
            other => panic!("unexpected wave {:?}", other),
        },
        other => panic!("unexpected contents {:?}", other),
    }
    match (Print {}).contents() {
        CellContents::Primitive(PrimitiveType::Output(h)) => {
            assert!(matches!(h.check, OutputCheck::Sink));
        },
        other => panic!("unexpected contents {:?}", other),
    }
    match (OutputChannel {}).interface() {
        CellInterface::Builtin(ports) => assert_eq!(ports.len(), 2),
        other => panic!("unexpected interface {:?}", other),
    }
    match output() {
        CellInterface::Builtin(ports) => {
            assert_eq!(ports[0].name, "state");
            assert_eq!(ports[1].name, "watch");
        },
        other => panic!("unexpected interface {:?}", other),
    }
    let inst = ModuleInstance::new("stage0", ModuleHandle(3));
    match inst.interface() {
        CellInterface::UserModule(ModuleHandle(3)) => {},
        other => panic!("unexpected interface {:?}", other),
    }
    match inst.cell() {
        Cell::ModuleLink(ModuleHandle(3)) => {},
        other => panic!("unexpected cell {:?}", other),
    }
}

#[test]
fn output_checks_look_up_expected_values() {
    let assert_check = OutputHandler::new(OutputCheck::Assert {
        setup_time: 2,
        waveform: vec![Signal::False, Signal::True],
    });
    assert_eq!(assert_check.expected(0), None);
    assert_eq!(assert_check.expected(2), Some(Signal::False));
    assert_eq!(assert_check.expected(3), Some(Signal::True));
    assert_eq!(assert_check.expected(4), Some(Signal::False));

    let delta = OutputHandler::new(OutputCheck::DeltaAssert {
        edges: vec![(0, Signal::UncontrolledTrue), (4, Signal::False)],
        period: 8,
        setup_time: 1,
        phase_offset: 0,
    });
    assert_eq!(delta.expected(0), None);
    assert_eq!(delta.expected(1), Some(Signal::UncontrolledTrue));
    assert_eq!(delta.expected(5), Some(Signal::False));
    assert_eq!(delta.expected(9), Some(Signal::UncontrolledTrue));

    let sink = OutputHandler::new(OutputCheck::Sink);
    assert_eq!(sink.expected(123), None);

    let input = InputHandler::new(InputWave::Waveform {
        setup_time: 1,
        samples: vec![Signal::True, Signal::HighImpedance],
    });
    assert_eq!(input.sample(0), Signal::Undefined);
    assert_eq!(input.sample(1), Signal::True);
    assert_eq!(input.sample(2), Signal::HighImpedance);
    assert_eq!(input.sample(3), Signal::True);

    let toggle = InputHandler::new(InputWave::Toggle { half_period: 2 });
    assert_eq!(toggle.sample(0), Signal::False);
    assert_eq!(toggle.sample(1), Signal::False);
    assert_eq!(toggle.sample(2), Signal::True);
    assert_eq!(toggle.sample(3), Signal::True);
    assert_eq!(toggle.sample(4), Signal::False);

    let clock = InputHandler::new(InputWave::Clock { period: 8, pulse_width: 4 });
    assert_eq!(clock.sample(0), Signal::False);
    assert_eq!(clock.sample(4), Signal::False);
    assert_eq!(clock.sample(5), Signal::True);
    assert_eq!(clock.sample(7), Signal::True);
    assert_eq!(clock.sample(8), Signal::False);
}

#[test]
fn latch_constructs_assemble_cross_coupled_gates() {
    let mut m = RzModule::new();
    let set = m.rz_alloc();
    let rst = m.rz_alloc();
    m.mk_input(set, InputHandler::new(InputWave::Constant(Signal::False))).unwrap();
    m.mk_input(rst, InputHandler::new(InputWave::Constant(Signal::False))).unwrap();
    let (q, q_not) = latch(&mut m, set, rst).unwrap();
    assert_eq!((q, q_not), (SignalID(2), SignalID(3)));
    let desc = m.into_desc();
    assert!(matches!(desc[2], Operation::Nor(SignalID(1), SignalID(3))));
    assert!(matches!(desc[3], Operation::Nor(SignalID(0), SignalID(2))));

    let mut m = RzModule::new();
    let dat = m.rz_alloc();
    let en = m.rz_alloc();
    m.mk_input(dat, InputHandler::new(InputWave::Constant(Signal::True))).unwrap();
    m.mk_input(en, InputHandler::new(InputWave::Constant(Signal::True))).unwrap();
    let (q, q_not) = d_latch(&mut m, dat, en).unwrap();
    assert_eq!((q, q_not), (SignalID(5), SignalID(6)));
    let desc = m.into_desc();
    assert!(matches!(desc[2], Operation::Not(SignalID(0))));
    assert!(matches!(desc[3], Operation::And(SignalID(1), SignalID(0))));
    assert!(matches!(desc[4], Operation::And(SignalID(1), SignalID(2))));
    assert!(matches!(desc[5], Operation::Nor(SignalID(4), SignalID(6))));
    assert!(matches!(desc[6], Operation::Nor(SignalID(3), SignalID(5))));

    // an enabled D latch drives Q to the data value
    let mut circuit = Circuit::new(desc, 8);
    for _ in 0..64 {
        circuit.tick();
    }
    let (_d, signals) = circuit.inspect();
    assert_eq!(signals[q.0], Signal::True);
    assert_eq!(signals[q_not.0], Signal::False);
}
