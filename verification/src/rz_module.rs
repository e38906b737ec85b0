//! A second, tuple-argument face of the flat graph assembler.
//!
//! [`RzModule`] stages a flat circuit exactly as
//! [`crate::builder::GateLevelDescription`] does; its binary gate
//! constructors take their two operands as one pair. Multi-gate constructs
//! such as latches are assembled on top of it in [`crate::constructs`].

use vstd::prelude::*;

use crate::builder::{assign_result, finalizes, BuilderError, GateLevelDescription};
use crate::operation::{InputHandler, Operation, OutputHandler, SignalID};

verus! {

/// A mutable staging structure for a flat circuit description, with paired
/// operands for the binary gates.
#[derive(Debug)]
pub struct RzModule {
    gld: GateLevelDescription,
}

impl RzModule {
    /// The staging array underneath.
    pub closed spec fn desc(self) -> Seq<Option<Operation>> {
        self.gld.desc@
    }

    /// Makes an empty module.
    pub fn new() -> (r: RzModule)
        ensures
            r.desc() =~= Seq::<Option<Operation>>::empty(),
    {
        RzModule { gld: GateLevelDescription::new() }
    }

    /// Allocates a fresh, unassigned slot and returns its handle.
    pub fn rz_alloc(&mut self) -> (id: SignalID)
        ensures
            final(self).desc() == old(self).desc().push(None),
            id.0 == old(self).desc().len(),
    {
        self.gld.rz_alloc()
    }

    /// Assigns `loc` an input operation driven by `handler`.
    pub fn mk_input(&mut self, loc: SignalID, handler: InputHandler) -> (r: Result<
        (),
        BuilderError,
    >)
        ensures
            assign_result(old(self).desc(), final(self).desc(), loc, Operation::Input(handler), r),
    {
        self.gld.mk_input(loc, handler)
    }

    /// Assigns `loc` an output operation that mirrors and reports slot
    /// `input`.
    pub fn mk_output(&mut self, loc: SignalID, input: SignalID, handler: OutputHandler) -> (r:
        Result<(), BuilderError>)
        requires
            input.0 < old(self).desc().len(),
        ensures
            assign_result(
                old(self).desc(),
                final(self).desc(),
                loc,
                Operation::Output(input, handler),
                r,
            ),
    {
        self.gld.mk_output(loc, input, handler)
    }

    /// Assigns `loc` the conjunction of the paired operand slots.
    pub fn mk_and(&mut self, loc: SignalID, input: (SignalID, SignalID)) -> (r: Result<
        (),
        BuilderError,
    >)
        requires
            input.0.0 < old(self).desc().len(),
            input.1.0 < old(self).desc().len(),
        ensures
            assign_result(
                old(self).desc(),
                final(self).desc(),
                loc,
                Operation::And(input.0, input.1),
                r,
            ),
    {
        self.gld.mk_and(loc, input.0, input.1)
    }

    /// Assigns `loc` the negated conjunction of the paired operand slots.
    pub fn mk_nand(&mut self, loc: SignalID, input: (SignalID, SignalID)) -> (r: Result<
        (),
        BuilderError,
    >)
        requires
            input.0.0 < old(self).desc().len(),
            input.1.0 < old(self).desc().len(),
        ensures
            assign_result(
                old(self).desc(),
                final(self).desc(),
                loc,
                Operation::Nand(input.0, input.1),
                r,
            ),
    {
        self.gld.mk_nand(loc, input.0, input.1)
    }

    /// Assigns `loc` the disjunction of the paired operand slots.
    pub fn mk_or(&mut self, loc: SignalID, input: (SignalID, SignalID)) -> (r: Result<
        (),
        BuilderError,
    >)
        requires
            input.0.0 < old(self).desc().len(),
            input.1.0 < old(self).desc().len(),
        ensures
            assign_result(
                old(self).desc(),
                final(self).desc(),
                loc,
                Operation::Or(input.0, input.1),
                r,
            ),
    {
        self.gld.mk_or(loc, input.0, input.1)
    }

    /// Assigns `loc` the negated disjunction of the paired operand slots.
    pub fn mk_nor(&mut self, loc: SignalID, input: (SignalID, SignalID)) -> (r: Result<
        (),
        BuilderError,
    >)
        requires
            input.0.0 < old(self).desc().len(),
            input.1.0 < old(self).desc().len(),
        ensures
            assign_result(
                old(self).desc(),
                final(self).desc(),
                loc,
                Operation::Nor(input.0, input.1),
                r,
            ),
    {
        self.gld.mk_nor(loc, input.0, input.1)
    }

    /// Assigns `loc` the exclusive or of the paired operand slots.
    pub fn mk_xor(&mut self, loc: SignalID, input: (SignalID, SignalID)) -> (r: Result<
        (),
        BuilderError,
    >)
        requires
            input.0.0 < old(self).desc().len(),
            input.1.0 < old(self).desc().len(),
        ensures
            assign_result(
                old(self).desc(),
                final(self).desc(),
                loc,
                Operation::Xor(input.0, input.1),
                r,
            ),
    {
        self.gld.mk_xor(loc, input.0, input.1)
    }

    /// Assigns `loc` the negated exclusive or of the paired operand slots.
    pub fn mk_xnor(&mut self, loc: SignalID, input: (SignalID, SignalID)) -> (r: Result<
        (),
        BuilderError,
    >)
        requires
            input.0.0 < old(self).desc().len(),
            input.1.0 < old(self).desc().len(),
        ensures
            assign_result(
                old(self).desc(),
                final(self).desc(),
                loc,
                Operation::Xnor(input.0, input.1),
                r,
            ),
    {
        self.gld.mk_xnor(loc, input.0, input.1)
    }

    /// Assigns `loc` the complement of slot `input`.
    pub fn mk_not(&mut self, loc: SignalID, input: SignalID) -> (r: Result<(), BuilderError>)
        requires
            input.0 < old(self).desc().len(),
        ensures
            assign_result(old(self).desc(), final(self).desc(), loc, Operation::Not(input), r),
    {
        self.gld.mk_not(loc, input)
    }

    /// Consumes the module into the immutable flat operation array,
    /// substituting for every still-unassigned slot an input that reads
    /// `HighImpedance` forever.
    pub fn into_desc(self) -> (r: Vec<Operation>)
        ensures
            finalizes(self.desc(), r@),
    {
        self.gld.into_desc()
    }
}

} // verus!
