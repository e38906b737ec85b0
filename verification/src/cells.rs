//! Ready-made cell descriptions: one small struct per primitive kind.
//!
//! Each struct describes one kind of cell a module can contain and knows its
//! lowered contents and its fixed interface. The I/O cells describe their
//! behaviour as data: a waveform or clock the simulation samples, or the
//! expectation an output slot's events are held against by whoever drains
//! them — printing and channel delivery are the event consumer's business,
//! not the circuit's.

use vstd::prelude::*;

use crate::netlist::{
    Address,
    Cell,
    CellContents,
    CellHandle,
    CellInterface,
    ModuleHandle,
    Port,
    PortHandle,
    PortType,
    PrimitiveType,
};
use crate::operation::{
    copy_edges,
    copy_signals,
    InputHandler,
    InputWave,
    OutputCheck,
    OutputHandler,
};
use crate::signal::Signal;

verus! {

/// The standard interface of an output-observing cell: its own state port
/// first, then the input it watches.
pub fn output() -> (r: CellInterface)
    ensures
        r matches CellInterface::Builtin(ports) && ports@.len() == 2 && ports@[0].port_type
            == PortType::Output && ports@[1].port_type == PortType::Input && ports@[0].local_location
            == Address(CellHandle(0), PortHandle(0)) && ports@[1].local_location == Address(
            CellHandle(0),
            PortHandle(1),
        ) && ports@[0].name@ == "state"@ && ports@[1].name@ == "watch"@,
{
    let mut ports: Vec<Port> = Vec::new();
    ports.push(
        Port {
            name: "state".to_string(),
            port_type: PortType::Output,
            local_location: Address(CellHandle(0), PortHandle(0)),
        },
    );
    ports.push(
        Port {
            name: "watch".to_string(),
            port_type: PortType::Input,
            local_location: Address(CellHandle(0), PortHandle(1)),
        },
    );
    CellInterface::Builtin(ports)
}

/// An instantiation of another module of the design.
#[derive(Clone, Debug)]
pub struct ModuleInstance {
    pub instance_name: String,
    pub module_handle: ModuleHandle,
}

impl ModuleInstance {
    /// Names an instance of the module at `module_handle`.
    pub fn new(instance_name: &str, module_handle: ModuleHandle) -> (r: ModuleInstance)
        ensures
            r.instance_name@ == instance_name@,
            r.module_handle == module_handle,
    {
        ModuleInstance { instance_name: instance_name.to_string(), module_handle }
    }

    /// The cell this instance stands for.
    pub fn cell(&self) -> (r: Cell)
        ensures
            r == Cell::ModuleLink(self.module_handle),
    {
        Cell::ModuleLink(self.module_handle)
    }

    /// Lowers to an expansion of the referenced module.
    pub fn contents(&self) -> (r: CellContents)
        ensures
            r == CellContents::UserModule(self.module_handle),
    {
        CellContents::UserModule(self.module_handle)
    }

    /// Borrows the referenced module's port list.
    pub fn interface(&self) -> (r: CellInterface)
        ensures
            r == CellInterface::UserModule(self.module_handle),
    {
        CellInterface::UserModule(self.module_handle)
    }
}

/// Conjunction of two inputs.
#[derive(Clone, Copy, Debug)]
pub struct AndGate {}

/// Negated conjunction of two inputs.
#[derive(Clone, Copy, Debug)]
pub struct NandGate {}

/// Disjunction of two inputs.
#[derive(Clone, Copy, Debug)]
pub struct OrGate {}

/// Negated disjunction of two inputs.
#[derive(Clone, Copy, Debug)]
pub struct NorGate {}

/// Exclusive or of two inputs.
#[derive(Clone, Copy, Debug)]
pub struct XorGate {}

/// Negated exclusive or of two inputs.
#[derive(Clone, Copy, Debug)]
pub struct XnorGate {}

/// Complement of one input.
#[derive(Clone, Copy, Debug)]
pub struct Inverter {}

impl AndGate {
    /// The cell this gate stands for.
    pub fn cell(&self) -> (r: Cell)
        ensures
            r == Cell::Primitive(PrimitiveType::And),
    {
        Cell::Primitive(PrimitiveType::And)
    }

    /// Lowers to the conjunction operation.
    pub fn contents(&self) -> (r: CellContents)
        ensures
            r == CellContents::Primitive(PrimitiveType::And),
    {
        CellContents::Primitive(PrimitiveType::And)
    }

    /// Result port first, then the two operands.
    pub fn interface(&self) -> (r: CellInterface)
        ensures
            r matches CellInterface::Builtin(ports) && ports@.len() == 3 && ports@[0].port_type
                == PortType::Output && ports@[1].port_type == PortType::Input
                && ports@[2].port_type == PortType::Input,
    {
        CellInterface::Builtin(PrimitiveType::And.interface())
    }
}

impl NandGate {
    /// The cell this gate stands for.
    pub fn cell(&self) -> (r: Cell)
        ensures
            r == Cell::Primitive(PrimitiveType::Nand),
    {
        Cell::Primitive(PrimitiveType::Nand)
    }

    /// Lowers to the negated conjunction operation.
    pub fn contents(&self) -> (r: CellContents)
        ensures
            r == CellContents::Primitive(PrimitiveType::Nand),
    {
        CellContents::Primitive(PrimitiveType::Nand)
    }

    /// Result port first, then the two operands.
    pub fn interface(&self) -> (r: CellInterface)
        ensures
            r matches CellInterface::Builtin(ports) && ports@.len() == 3 && ports@[0].port_type
                == PortType::Output && ports@[1].port_type == PortType::Input
                && ports@[2].port_type == PortType::Input,
    {
        CellInterface::Builtin(PrimitiveType::Nand.interface())
    }
}

impl OrGate {
    /// The cell this gate stands for.
    pub fn cell(&self) -> (r: Cell)
        ensures
            r == Cell::Primitive(PrimitiveType::Or),
    {
        Cell::Primitive(PrimitiveType::Or)
    }

    /// Lowers to the disjunction operation.
    pub fn contents(&self) -> (r: CellContents)
        ensures
            r == CellContents::Primitive(PrimitiveType::Or),
    {
        CellContents::Primitive(PrimitiveType::Or)
    }

    /// Result port first, then the two operands.
    pub fn interface(&self) -> (r: CellInterface)
        ensures
            r matches CellInterface::Builtin(ports) && ports@.len() == 3 && ports@[0].port_type
                == PortType::Output && ports@[1].port_type == PortType::Input
                && ports@[2].port_type == PortType::Input,
    {
        CellInterface::Builtin(PrimitiveType::Or.interface())
    }
}

impl NorGate {
    /// The cell this gate stands for.
    pub fn cell(&self) -> (r: Cell)
        ensures
            r == Cell::Primitive(PrimitiveType::Nor),
    {
        Cell::Primitive(PrimitiveType::Nor)
    }

    /// Lowers to the negated disjunction operation.
    pub fn contents(&self) -> (r: CellContents)
        ensures
            r == CellContents::Primitive(PrimitiveType::Nor),
    {
        CellContents::Primitive(PrimitiveType::Nor)
    }

    /// Result port first, then the two operands.
    pub fn interface(&self) -> (r: CellInterface)
        ensures
            r matches CellInterface::Builtin(ports) && ports@.len() == 3 && ports@[0].port_type
                == PortType::Output && ports@[1].port_type == PortType::Input
                && ports@[2].port_type == PortType::Input,
    {
        CellInterface::Builtin(PrimitiveType::Nor.interface())
    }
}

impl XorGate {
    /// The cell this gate stands for.
    pub fn cell(&self) -> (r: Cell)
        ensures
            r == Cell::Primitive(PrimitiveType::Xor),
    {
        Cell::Primitive(PrimitiveType::Xor)
    }

    /// Lowers to the exclusive-or operation.
    pub fn contents(&self) -> (r: CellContents)
        ensures
            r == CellContents::Primitive(PrimitiveType::Xor),
    {
        CellContents::Primitive(PrimitiveType::Xor)
    }

    /// Result port first, then the two operands.
    pub fn interface(&self) -> (r: CellInterface)
        ensures
            r matches CellInterface::Builtin(ports) && ports@.len() == 3 && ports@[0].port_type
                == PortType::Output && ports@[1].port_type == PortType::Input
                && ports@[2].port_type == PortType::Input,
    {
        CellInterface::Builtin(PrimitiveType::Xor.interface())
    }
}

impl XnorGate {
    /// The cell this gate stands for.
    pub fn cell(&self) -> (r: Cell)
        ensures
            r == Cell::Primitive(PrimitiveType::Xnor),
    {
        Cell::Primitive(PrimitiveType::Xnor)
    }

    /// Lowers to the negated exclusive-or operation.
    pub fn contents(&self) -> (r: CellContents)
        ensures
            r == CellContents::Primitive(PrimitiveType::Xnor),
    {
        CellContents::Primitive(PrimitiveType::Xnor)
    }

    /// Result port first, then the two operands.
    pub fn interface(&self) -> (r: CellInterface)
        ensures
            r matches CellInterface::Builtin(ports) && ports@.len() == 3 && ports@[0].port_type
                == PortType::Output && ports@[1].port_type == PortType::Input
                && ports@[2].port_type == PortType::Input,
    {
        CellInterface::Builtin(PrimitiveType::Xnor.interface())
    }
}

impl Inverter {
    /// The cell this gate stands for.
    pub fn cell(&self) -> (r: Cell)
        ensures
            r == Cell::Primitive(PrimitiveType::Not),
    {
        Cell::Primitive(PrimitiveType::Not)
    }

    /// Lowers to the complement operation.
    pub fn contents(&self) -> (r: CellContents)
        ensures
            r == CellContents::Primitive(PrimitiveType::Not),
    {
        CellContents::Primitive(PrimitiveType::Not)
    }

    /// Result port first, then the single operand.
    pub fn interface(&self) -> (r: CellInterface)
        ensures
            r matches CellInterface::Builtin(ports) && ports@.len() == 2 && ports@[0].port_type
                == PortType::Output && ports@[1].port_type == PortType::Input,
    {
        CellInterface::Builtin(PrimitiveType::Not.interface())
    }
}

/// A cell which reproduces the series of signals in `waveform`, cyclically,
/// after `setup_time` logical ticks have elapsed; before that it reads
/// `Undefined`.
#[derive(Clone, Debug)]
pub struct Waveform {
    pub setup_time: u128,
    pub waveform: Vec<Signal>,
}

impl Waveform {
    /// The cell this waveform stands for.
    pub fn cell(&self) -> (r: Cell)
        ensures
            r matches Cell::Primitive(p) && p matches PrimitiveType::Input(h) && h.wave matches
                InputWave::Waveform { setup_time, samples } && setup_time == self.setup_time
                && samples@ == self.waveform@,
    {
        Cell::Primitive(
            PrimitiveType::Input(
                InputHandler {
                    wave: InputWave::Waveform {
                        setup_time: self.setup_time,
                        samples: copy_signals(&self.waveform),
                    },
                },
            ),
        )
    }

    /// Lowers to an input operation replaying the waveform.
    pub fn contents(&self) -> (r: CellContents)
        ensures
            r matches CellContents::Primitive(p) && p matches PrimitiveType::Input(h)
                && h.wave matches InputWave::Waveform { setup_time, samples } && setup_time
                == self.setup_time && samples@ == self.waveform@,
    {
        CellContents::Primitive(
            PrimitiveType::Input(
                InputHandler {
                    wave: InputWave::Waveform {
                        setup_time: self.setup_time,
                        samples: copy_signals(&self.waveform),
                    },
                },
            ),
        )
    }

    /// A single output port carrying the replayed value.
    pub fn interface(&self) -> (r: CellInterface)
        ensures
            r matches CellInterface::Builtin(ports) && ports@.len() == 1 && ports@[0].port_type
                == PortType::Output,
    {
        CellInterface::Builtin(
            PrimitiveType::Input(
                InputHandler { wave: InputWave::Constant(Signal::Undefined) },
            ).interface(),
        )
    }
}

/// A clock: oscillates with period `period`, reading `False` while
/// `tick % period` has not yet exceeded `pulse_width` and `True` after.
/// Starting each cycle on `False` keeps binary counters simple to build.
#[derive(Clone, Copy, Debug)]
pub struct Clock {
    pub period: u128,
    pub pulse_width: u128,
}

impl Clock {
    /// The cell this clock stands for.
    pub fn cell(&self) -> (r: Cell)
        ensures
            r == Cell::Primitive(
                PrimitiveType::Input(
                    InputHandler {
                        wave: InputWave::Clock {
                            period: self.period,
                            pulse_width: self.pulse_width,
                        },
                    },
                ),
            ),
    {
        Cell::Primitive(
            PrimitiveType::Input(
                InputHandler {
                    wave: InputWave::Clock { period: self.period, pulse_width: self.pulse_width },
                },
            ),
        )
    }

    /// Lowers to an input operation driven by the clock wave.
    pub fn contents(&self) -> (r: CellContents)
        ensures
            r == CellContents::Primitive(
                PrimitiveType::Input(
                    InputHandler {
                        wave: InputWave::Clock {
                            period: self.period,
                            pulse_width: self.pulse_width,
                        },
                    },
                ),
            ),
    {
        CellContents::Primitive(
            PrimitiveType::Input(
                InputHandler {
                    wave: InputWave::Clock { period: self.period, pulse_width: self.pulse_width },
                },
            ),
        )
    }

    /// A single output port carrying the clock level.
    pub fn interface(&self) -> (r: CellInterface)
        ensures
            r matches CellInterface::Builtin(ports) && ports@.len() == 1 && ports@[0].port_type
                == PortType::Output,
    {
        let mut ports: Vec<Port> = Vec::new();
        ports.push(
            Port {
                name: "clk".to_string(),
                port_type: PortType::Output,
                local_location: Address(CellHandle(0), PortHandle(0)),
            },
        );
        CellInterface::Builtin(ports)
    }
}

/// An observation point whose events the consumer is expected to print.
#[derive(Clone, Copy, Debug)]
pub struct Print {}

impl Print {
    /// The cell this observation point stands for.
    pub fn cell(&self) -> (r: Cell)
        ensures
            r == Cell::Primitive(
                PrimitiveType::Output(OutputHandler { check: OutputCheck::Sink }),
            ),
    {
        Cell::Primitive(PrimitiveType::Output(OutputHandler { check: OutputCheck::Sink }))
    }

    /// Lowers to an output operation with no expectation of its own.
    pub fn contents(&self) -> (r: CellContents)
        ensures
            r == CellContents::Primitive(
                PrimitiveType::Output(OutputHandler { check: OutputCheck::Sink }),
            ),
    {
        CellContents::Primitive(PrimitiveType::Output(OutputHandler { check: OutputCheck::Sink }))
    }

    /// State port first, then the watched input.
    pub fn interface(&self) -> (r: CellInterface)
        ensures
            r matches CellInterface::Builtin(ports) && ports@.len() == 2 && ports@[0].port_type
                == PortType::Output && ports@[1].port_type == PortType::Input,
    {
        output()
    }
}

/// An observation point whose events the consumer is expected to forward,
/// for processing or display elsewhere.
#[derive(Clone, Copy, Debug)]
pub struct OutputChannel {}

impl OutputChannel {
    /// The cell this observation point stands for.
    pub fn cell(&self) -> (r: Cell)
        ensures
            r == Cell::Primitive(
                PrimitiveType::Output(OutputHandler { check: OutputCheck::Sink }),
            ),
    {
        Cell::Primitive(PrimitiveType::Output(OutputHandler { check: OutputCheck::Sink }))
    }

    /// Lowers to an output operation with no expectation of its own.
    pub fn contents(&self) -> (r: CellContents)
        ensures
            r == CellContents::Primitive(
                PrimitiveType::Output(OutputHandler { check: OutputCheck::Sink }),
            ),
    {
        CellContents::Primitive(PrimitiveType::Output(OutputHandler { check: OutputCheck::Sink }))
    }

    /// State port first, then the watched input.
    pub fn interface(&self) -> (r: CellInterface)
        ensures
            r matches CellInterface::Builtin(ports) && ports@.len() == 2 && ports@[0].port_type
                == PortType::Output && ports@[1].port_type == PortType::Input,
    {
        output()
    }
}

/// An observation point that expects the watched value to replay `waveform`
/// cyclically once `setup_time` raw ticks have elapsed.
#[derive(Clone, Debug)]
pub struct Assert {
    pub setup_time: u128,
    pub waveform: Vec<Signal>,
}

impl Assert {
    /// The cell this expectation stands for.
    pub fn cell(&self) -> (r: Cell)
        ensures
            r matches Cell::Primitive(p) && p matches PrimitiveType::Output(h) && h.check matches
                OutputCheck::Assert { setup_time, waveform } && setup_time == self.setup_time
                && waveform@ == self.waveform@,
    {
        Cell::Primitive(
            PrimitiveType::Output(
                OutputHandler {
                    check: OutputCheck::Assert {
                        setup_time: self.setup_time,
                        waveform: copy_signals(&self.waveform),
                    },
                },
            ),
        )
    }

    /// Lowers to an output operation carrying the cyclic expectation.
    pub fn contents(&self) -> (r: CellContents)
        ensures
            r matches CellContents::Primitive(p) && p matches PrimitiveType::Output(h)
                && h.check matches OutputCheck::Assert { setup_time, waveform } && setup_time
                == self.setup_time && waveform@ == self.waveform@,
    {
        CellContents::Primitive(
            PrimitiveType::Output(
                OutputHandler {
                    check: OutputCheck::Assert {
                        setup_time: self.setup_time,
                        waveform: copy_signals(&self.waveform),
                    },
                },
            ),
        )
    }

    /// State port first, then the watched input.
    pub fn interface(&self) -> (r: CellInterface)
        ensures
            r matches CellInterface::Builtin(ports) && ports@.len() == 2 && ports@[0].port_type
                == PortType::Output && ports@[1].port_type == PortType::Input,
    {
        output()
    }
}

/// An observation point that expects the watched value to follow a sparse
/// edge list: within each period of length `period`, phase-shifted by
/// `phase_offset`, the value of the latest edge not past the current
/// position, checked once `setup_time` raw ticks have elapsed.
#[derive(Clone, Debug)]
pub struct DeltaAssert {
    pub waveform: Vec<(u128, Signal)>,
    pub period: u128,
    pub setup_time: u128,
    pub phase_offset: u128,
}

impl DeltaAssert {
    /// The cell this expectation stands for.
    pub fn cell(&self) -> (r: Cell)
        ensures
            r matches Cell::Primitive(p) && p matches PrimitiveType::Output(h) && h.check matches
                OutputCheck::DeltaAssert { edges, period, setup_time, phase_offset } && edges@
                == self.waveform@ && period == self.period && setup_time == self.setup_time
                && phase_offset == self.phase_offset,
    {
        Cell::Primitive(
            PrimitiveType::Output(
                OutputHandler {
                    check: OutputCheck::DeltaAssert {
                        edges: copy_edges(&self.waveform),
                        period: self.period,
                        setup_time: self.setup_time,
                        phase_offset: self.phase_offset,
                    },
                },
            ),
        )
    }

    /// Lowers to an output operation carrying the edge-list expectation.
    pub fn contents(&self) -> (r: CellContents)
        ensures
            r matches CellContents::Primitive(p) && p matches PrimitiveType::Output(h)
                && h.check matches OutputCheck::DeltaAssert {
                edges,
                period,
                setup_time,
                phase_offset,
            } && edges@ == self.waveform@ && period == self.period && setup_time == self.setup_time
                && phase_offset == self.phase_offset,
    {
        CellContents::Primitive(
            PrimitiveType::Output(
                OutputHandler {
                    check: OutputCheck::DeltaAssert {
                        edges: copy_edges(&self.waveform),
                        period: self.period,
                        setup_time: self.setup_time,
                        phase_offset: self.phase_offset,
                    },
                },
            ),
        )
    }

    /// State port first, then the watched input.
    pub fn interface(&self) -> (r: CellInterface)
        ensures
            r matches CellInterface::Builtin(ports) && ports@.len() == 2 && ports@[0].port_type
                == PortType::Output && ports@[1].port_type == PortType::Input,
    {
        output()
    }
}

} // verus!
