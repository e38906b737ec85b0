//! The hierarchical design representation.
//!
//! A [`Netlist`] is a collection of named [`Module`]s. A module contains
//! cells — primitive gates, links to other modules, or input-port proxies —
//! connected by directed wires between port addresses. Cells and wires are
//! referenced only by small integer handles scoped to one module's local
//! arena; that is what makes recursive flattening tractable. A module may
//! instantiate other modules, including itself transitively: the counting
//! and enumeration algorithms detect unbounded expansion instead of looping
//! forever.

use vstd::prelude::*;

use crate::operation::{InputHandler, OutputHandler};

verus! {

/// Identifies one module of a netlist: an index into its module list.
#[derive(Clone, Copy, Debug, PartialEq, Eq, Structural, PartialOrd, Ord, Hash)]
pub struct ModuleHandle(pub usize);

/// Identifies one cell inside one module: an index into its cell list.
#[derive(Clone, Copy, Debug, PartialEq, Eq, Structural, PartialOrd, Ord, Hash)]
pub struct CellHandle(pub usize);

/// Identifies one port of one cell's interface, by position.
#[derive(Clone, Copy, Debug, PartialEq, Eq, Structural, PartialOrd, Ord, Hash)]
pub struct PortHandle(pub usize);

/// Uniquely locates a port instance within one module's local scope.
#[derive(Clone, Copy, Debug, PartialEq, Eq, Structural, PartialOrd, Ord, Hash)]
pub struct Address(pub CellHandle, pub PortHandle);

/// The driving end of a wire.
#[derive(Clone, Copy, Debug, PartialEq, Eq, Structural, PartialOrd, Ord, Hash)]
pub struct Source(pub Address);

/// The driven end of a wire; each drain has at most one driving source.
#[derive(Clone, Copy, Debug, PartialEq, Eq, Structural, PartialOrd, Ord, Hash)]
pub struct Drain(pub Address);

/// Whether a port consumes or produces a value.
#[derive(Clone, Copy, Debug, PartialEq, Eq, Structural)]
pub enum PortType {
    Input,
    Output,
}

/// One entry of a cell interface or of a module's port list.
#[derive(Clone, Debug)]
pub struct Port {
    pub name: String,
    pub port_type: PortType,
    /// For a module's port list: the local address the port stands for,
    /// normally an input-proxy cell for inputs or a driving cell's output
    /// for outputs. Interfaces of primitive cells do not read it.
    pub local_location: Address,
}

/// The primitive operations a cell can lower to.
#[derive(Debug)]
pub enum PrimitiveType {
    Not,
    And,
    Nand,
    Or,
    Nor,
    Xor,
    Xnor,
    Input(InputHandler),
    Output(OutputHandler),
}

impl PrimitiveType {
    /// Whether two primitives lower to the same operation: the same gate, or
    /// an I/O point whose handler behaves identically at every tick.
    pub open spec fn equiv(self, o: PrimitiveType) -> bool {
        match (self, o) {
            (PrimitiveType::Not, PrimitiveType::Not) => true,
            (PrimitiveType::And, PrimitiveType::And) => true,
            (PrimitiveType::Nand, PrimitiveType::Nand) => true,
            (PrimitiveType::Or, PrimitiveType::Or) => true,
            (PrimitiveType::Nor, PrimitiveType::Nor) => true,
            (PrimitiveType::Xor, PrimitiveType::Xor) => true,
            (PrimitiveType::Xnor, PrimitiveType::Xnor) => true,
            (PrimitiveType::Input(a), PrimitiveType::Input(b)) => forall|t: int|
                a.wave.spec_at(t) == b.wave.spec_at(t),
            (PrimitiveType::Output(a), PrimitiveType::Output(b)) => forall|t: int|
                a.check.spec_expected(t) == b.check.spec_expected(t),
            (_, _) => false,
        }
    }

    /// How many ports the primitive's fixed interface has.
    pub open spec fn arity(self) -> int {
        match self {
            PrimitiveType::Not => 2,
            PrimitiveType::Input(_) => 1,
            PrimitiveType::Output(_) => 2,
            _ => 3,
        }
    }

    /// The name of the primitive's result port.
    pub open spec fn out_port_name(self) -> Seq<char> {
        match self {
            PrimitiveType::Not => "~A"@,
            PrimitiveType::And => "A&B"@,
            PrimitiveType::Nand => "A~&B"@,
            PrimitiveType::Or => "A|B"@,
            PrimitiveType::Nor => "A~|B"@,
            PrimitiveType::Xor => "A^B"@,
            PrimitiveType::Xnor => "A~^B"@,
            PrimitiveType::Input(_) => "waveform"@,
            PrimitiveType::Output(_) => "state"@,
        }
    }

    /// The fixed, hardcoded interface of a primitive, in output-then-inputs
    /// order: the result port at position zero, the operands after it.
    pub fn interface(&self) -> (r: Vec<Port>)
        ensures
            r@.len() == self.arity(),
            r@[0].port_type == PortType::Output,
            forall|k: int| 1 <= k < r@.len() ==> (#[trigger] r@[k].port_type) == PortType::Input,
            forall|k: int|
                0 <= k < r@.len() ==> (#[trigger] r@[k].local_location) == Address(
                    CellHandle(0),
                    PortHandle(k as usize),
                ),
            r@[0].name@ == self.out_port_name(),
            r@.len() >= 2 ==> r@[1].name@ == match self {
                PrimitiveType::Output(_) => "watch"@,
                _ => "A"@,
            },
            r@.len() == 3 ==> r@[2].name@ == "B"@,
    {
        let mut r: Vec<Port> = Vec::new();
        let out_name: &str = match self {
            PrimitiveType::Not => "~A",
            PrimitiveType::And => "A&B",
            PrimitiveType::Nand => "A~&B",
            PrimitiveType::Or => "A|B",
            PrimitiveType::Nor => "A~|B",
            PrimitiveType::Xor => "A^B",
            PrimitiveType::Xnor => "A~^B",
            PrimitiveType::Input(_) => "waveform",
            PrimitiveType::Output(_) => "state",
        };
        r.push(
            Port {
                name: out_name.to_string(),
                port_type: PortType::Output,
                local_location: Address(CellHandle(0), PortHandle(0)),
            },
        );
        match self {
            PrimitiveType::Input(_) => {},
            PrimitiveType::Not => {
                r.push(
                    Port {
                        name: "A".to_string(),
                        port_type: PortType::Input,
                        local_location: Address(CellHandle(0), PortHandle(1)),
                    },
                );
            },
            PrimitiveType::Output(_) => {
                r.push(
                    Port {
                        name: "watch".to_string(),
                        port_type: PortType::Input,
                        local_location: Address(CellHandle(0), PortHandle(1)),
                    },
                );
            },
            _ => {
                r.push(
                    Port {
                        name: "A".to_string(),
                        port_type: PortType::Input,
                        local_location: Address(CellHandle(0), PortHandle(1)),
                    },
                );
                r.push(
                    Port {
                        name: "B".to_string(),
                        port_type: PortType::Input,
                        local_location: Address(CellHandle(0), PortHandle(2)),
                    },
                );
            },
        }
        r
    }
}

impl Clone for PrimitiveType {
    /// A copied primitive lowers to the same operation.
    fn clone(&self) -> (res: Self)
        ensures
            res.equiv(*self),
    {
        match self {
            PrimitiveType::Not => PrimitiveType::Not,
            PrimitiveType::And => PrimitiveType::And,
            PrimitiveType::Nand => PrimitiveType::Nand,
            PrimitiveType::Or => PrimitiveType::Or,
            PrimitiveType::Nor => PrimitiveType::Nor,
            PrimitiveType::Xor => PrimitiveType::Xor,
            PrimitiveType::Xnor => PrimitiveType::Xnor,
            PrimitiveType::Input(h) => PrimitiveType::Input(h.clone()),
            PrimitiveType::Output(h) => PrimitiveType::Output(h.clone()),
        }
    }
}

/// One cell of a module: a primitive gate or I/O point, an instance of
/// another module, or a proxy standing for one of the module's own input
/// ports so that local wires have something to reference.
#[derive(Clone, Debug)]
pub enum Cell {
    Primitive(PrimitiveType),
    ModuleLink(ModuleHandle),
    InputProxy(PortHandle),
}

impl Cell {
    /// What this cell lowers to: primitives lower to their operation, module
    /// links expand to the referenced module, and input proxies lower to
    /// nothing at all.
    pub fn contents(&self) -> (r: CellContents)
        ensures
            match *self {
                Cell::Primitive(p) => r matches CellContents::Primitive(q) && q.equiv(p),
                Cell::ModuleLink(m) => r == CellContents::UserModule(m),
                Cell::InputProxy(_) => r == CellContents::InputPlaceholder,
            },
    {
        match self {
            Cell::Primitive(p) => CellContents::Primitive(p.clone()),
            Cell::ModuleLink(m) => CellContents::UserModule(*m),
            Cell::InputProxy(_) => CellContents::InputPlaceholder,
        }
    }

    /// The cell's ordered port list: built in for primitives and proxies,
    /// borrowed from the referenced module for instances.
    pub fn interface(&self) -> (r: CellInterface)
        ensures
            match *self {
                Cell::Primitive(p) => r matches CellInterface::Builtin(ports) && ports@.len()
                    == p.arity() && ports@[0].port_type == PortType::Output && forall|k: int|
                    1 <= k < ports@.len() ==> (#[trigger] ports@[k].port_type) == PortType::Input,
                Cell::ModuleLink(m) => r == CellInterface::UserModule(m),
                Cell::InputProxy(_) => r matches CellInterface::Builtin(ports) && ports@.len() == 1
                    && ports@[0].port_type == PortType::Output && ports@[0].name@ == "port"@,
            },
    {
        match self {
            Cell::Primitive(p) => CellInterface::Builtin(p.interface()),
            Cell::ModuleLink(m) => CellInterface::UserModule(*m),
            Cell::InputProxy(_) => {
                let mut ports: Vec<Port> = Vec::new();
                ports.push(
                    Port {
                        name: "port".to_string(),
                        port_type: PortType::Output,
                        local_location: Address(CellHandle(0), PortHandle(0)),
                    },
                );
                CellInterface::Builtin(ports)
            },
        }
    }
}

/// What a cell lowers to.
#[derive(Clone, Debug)]
pub enum CellContents {
    Primitive(PrimitiveType),
    UserModule(ModuleHandle),
    InputPlaceholder,
}

/// The ordered port list a cell exposes: fixed and built in for primitives
/// and proxies, borrowed from the referenced module for instances.
#[derive(Clone, Debug)]
pub enum CellInterface {
    Builtin(Vec<Port>),
    UserModule(ModuleHandle),
}

/// Why lowering a netlist to a flat circuit failed.
#[derive(Clone, Copy, Debug, PartialEq, Eq, Structural)]
pub enum NetlistLowerError {
    /// A module with no cells cannot be meaningfully instantiated.
    EmptyModule,
    /// A cell or caller referenced a module that is not in the design.
    ModuleHandleDNE,
    /// The caller supplied fewer port allocations than the module has ports.
    PortNotAllocated,
    /// A primitive's fixed-position operand slot was missing from its
    /// resolved interface.
    ChildPortNotAllocated,
    /// The instantiation chain outgrew the module count, which only a cyclic
    /// design can do.
    RecursionLimit,
    /// Two cells resolved to the same flat output slot, so one assignment
    /// was refused.
    ConflictingDrive,
}

/// One named module: its port list, its wires, and its cells.
#[derive(Clone, Debug)]
pub struct Module {
    pub name: String,
    pub portlist: Vec<Port>,
    pub wires: Vec<(Drain, Source)>,
    pub cells: Vec<Cell>,
}

/// The first source wired to drain `d`, scanning `wires` in order. Wires
/// built through [`Module::mk_wire`] have distinct drains, so the first
/// match is the only one.
pub open spec fn wire_lookup(wires: Seq<(Drain, Source)>, d: Drain) -> Option<Source>
    decreases wires.len(),
{
    if wires.len() == 0 {
        None
    } else if wires[0].0 == d {
        Some(wires[0].1)
    } else {
        wire_lookup(wires.drop_first(), d)
    }
}

/// Whether some wire drives drain `d`.
pub open spec fn wire_present(wires: Seq<(Drain, Source)>, d: Drain) -> bool {
    exists|k: int| 0 <= k < wires.len() && (#[trigger] wires[k]).0 == d
}

/// A drain has a wire exactly when the ordered lookup finds one.
pub proof fn lemma_wire_lookup_present(wires: Seq<(Drain, Source)>, d: Drain)
    ensures
        wire_present(wires, d) <==> wire_lookup(wires, d) is Some,
    decreases wires.len(),
{
    if wires.len() > 0 {
        lemma_wire_lookup_present(wires.drop_first(), d);
        if wires[0].0 == d {
        } else {
            assert forall|k: int| 0 <= k < wires.len() && (#[trigger] wires[k]).0 == d implies
                wire_present(wires.drop_first(), d) by {
                assert(wires.drop_first()[k - 1] == wires[k]);
            }
            assert forall|k: int|
                0 <= k < wires.drop_first().len() && (#[trigger] wires.drop_first()[k]).0
                    == d implies wire_present(wires, d) by {
                assert(wires[k + 1] == wires.drop_first()[k]);
            }
        }
    }
}

impl Module {
    /// Makes an empty module with the given name.
    pub fn new(name: &str) -> (r: Module)
        ensures
            r.name@ == name@,
            r.portlist@ =~= Seq::<Port>::empty(),
            r.wires@ =~= Seq::<(Drain, Source)>::empty(),
            r.cells@ =~= Seq::<Cell>::empty(),
    {
        Module {
            name: name.to_string(),
            portlist: Vec::new(),
            wires: Vec::new(),
            cells: Vec::new(),
        }
    }

    /// Appends a cell and returns its handle.
    pub fn mk_cell(&mut self, cell: Cell) -> (h: CellHandle)
        ensures
            final(self).cells@ == old(self).cells@.push(cell),
            h.0 == old(self).cells@.len(),
            final(self).name == old(self).name,
            final(self).portlist == old(self).portlist,
            final(self).wires == old(self).wires,
    {
        let h = CellHandle(self.cells.len());
        self.cells.push(cell);
        h
    }

    /// Wires drain `d` to source `s`, upholding the single-driver rule: if
    /// some wire already drives `d`, nothing changes and the call reports
    /// `false`; otherwise the wire is appended and the call reports `true`.
    pub fn mk_wire(&mut self, d: Drain, s: Source) -> (r: bool)
        ensures
            r == !wire_present(old(self).wires@, d),
            r ==> final(self).wires@ == old(self).wires@.push((d, s)),
            !r ==> final(self).wires@ == old(self).wires@,
            final(self).name == old(self).name,
            final(self).portlist == old(self).portlist,
            final(self).cells == old(self).cells,
    {
        let mut i: usize = 0;
        while i < self.wires.len()
            invariant
                i <= self.wires@.len(),
                forall|k: int| 0 <= k < i ==> (#[trigger] self.wires@[k]).0 != d,
            decreases self.wires@.len() - i,
        {
            if self.wires[i].0 == d {
                return false;
            }
            i = i + 1;
        }
        self.wires.push((d, s));
        true
    }
}

/// The hierarchical design: a collection of modules addressed by handle.
#[derive(Clone, Debug)]
pub struct Netlist {
    pub modules: Vec<Module>,
}

/// How many cells of `cells` are primitives.
pub open spec fn prim_count(cells: Seq<Cell>) -> nat
    decreases cells.len(),
{
    if cells.len() == 0 {
        0
    } else {
        prim_count(cells.drop_last()) + if cells.last() is Primitive {
            1nat
        } else {
            0nat
        }
    }
}

/// Whether no cell of `cells` instantiates another module.
pub open spec fn cells_flat(cells: Seq<Cell>) -> bool {
    forall|k: int| 0 <= k < cells.len() ==> !((#[trigger] cells[k]) is ModuleLink)
}

/// Looks up a wire's source by drain, scanning in order.
pub fn wire_source(wires: &Vec<(Drain, Source)>, d: Drain) -> (r: Option<Source>)
    ensures
        r == wire_lookup(wires@, d),
    decreases wires@.len(),
{
    let mut i: usize = 0;
    proof {
        assert(wires@.subrange(0, wires@.len() as int) =~= wires@);
    }
    while i < wires.len()
        invariant
            i <= wires@.len(),
            wire_lookup(wires@, d) == wire_lookup(wires@.subrange(i as int, wires@.len() as int), d),
        decreases wires@.len() - i,
    {
        let (wd, ws) = wires[i];
        proof {
            let tail = wires@.subrange(i as int, wires@.len() as int);
            assert(tail[0] == wires@[i as int]);
            assert(tail.drop_first() =~= wires@.subrange(i as int + 1, wires@.len() as int));
        }
        if wd == d {
            return Some(ws);
        }
        i = i + 1;
    }
    proof {
        assert(wires@.subrange(wires@.len() as int, wires@.len() as int) =~= Seq::<(
            Drain,
            Source,
        )>::empty());
    }
    None
}

} // verus!
