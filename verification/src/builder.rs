//! The flat graph assembler.
//!
//! A [`GateLevelDescription`] is a mutable staging structure: `rz_alloc`
//! reserves integer-addressed slots densely from zero, each `mk_` call
//! assigns exactly one [`Operation`] to a previously allocated, still
//! unassigned slot, and `into_desc` consumes the builder into the immutable
//! flat array a [`crate::circuit::Circuit`] evaluates, defaulting every slot
//! that was never assigned to a permanently high-impedance input.

use vstd::prelude::*;

use crate::circuit::hiz_input;
use crate::operation::{InputHandler, Operation, OutputHandler, SignalID};

verus! {

/// Why a builder assignment was refused.
#[derive(Clone, Copy, Debug, PartialEq, Eq, Structural)]
pub enum BuilderError {
    /// The slot already holds an operation.
    DuplicateAssignment,
    /// The slot was never allocated.
    UnallocatedLocation,
}

/// How many slots of a staging array already hold an operation.
pub open spec fn assigned_count(s: Seq<Option<Operation>>) -> nat
    decreases s.len(),
{
    if s.len() == 0 {
        0
    } else {
        assigned_count(s.drop_last()) + if s.last() is Some {
            1nat
        } else {
            0nat
        }
    }
}

/// How many slots of a flat array hold the high-impedance fallback input.
pub open spec fn hiz_count(s: Seq<Operation>) -> nat
    decreases s.len(),
{
    if s.len() == 0 {
        0
    } else {
        hiz_count(s.drop_last()) + if s.last() == hiz_input() {
            1nat
        } else {
            0nat
        }
    }
}

/// What every assignment call leaves behind: on success the slot was empty
/// and now holds exactly `op`; the two failures identify, exactly and
/// exclusively, an out-of-range slot and an occupied slot, both leaving the
/// builder unchanged.
pub open spec fn assign_result(
    pre: Seq<Option<Operation>>,
    post: Seq<Option<Operation>>,
    loc: SignalID,
    op: Operation,
    r: Result<(), BuilderError>,
) -> bool {
    match r {
        Ok(_) => {
            &&& loc.0 < pre.len()
            &&& pre[loc.0 as int] is None
            &&& post == pre.update(loc.0 as int, Some(op))
        },
        Err(BuilderError::UnallocatedLocation) => loc.0 >= pre.len() && post == pre,
        Err(BuilderError::DuplicateAssignment) => {
            &&& loc.0 < pre.len()
            &&& pre[loc.0 as int] is Some
            &&& post == pre
        },
    }
}

/// Whether `desc` is the flat array a staging array finalizes to: the same
/// length, every assigned slot carrying its operation, and every
/// still-unassigned slot the high-impedance fallback input.
pub open spec fn finalizes(staged: Seq<Option<Operation>>, desc: Seq<Operation>) -> bool {
    &&& desc.len() == staged.len()
    &&& forall|i: int|
        0 <= i < desc.len() ==> (#[trigger] desc[i]) == match staged[i] {
            Some(op) => op,
            None => hiz_input(),
        }
}

/// The mutable staging structure that assembles a flat circuit description.
///
/// Assignment calls take their operand handles from earlier allocations, so
/// the staging array stays free of dangling references by construction; the
/// slot being assigned is checked at run time instead, because colliding
/// assignments are the caller errors the builder reports.
#[derive(Debug)]
pub struct GateLevelDescription {
    pub desc: Vec<Option<Operation>>,
}

impl GateLevelDescription {
    /// Makes an empty builder.
    pub fn new() -> (r: GateLevelDescription)
        ensures
            r.desc@ =~= Seq::<Option<Operation>>::empty(),
    {
        GateLevelDescription { desc: Vec::new() }
    }

    /// Allocates a fresh, unassigned slot and returns its handle. Slots are
    /// handed out densely and monotonically starting at zero.
    pub fn rz_alloc(&mut self) -> (id: SignalID)
        ensures
            final(self).desc@ == old(self).desc@.push(None),
            id.0 == old(self).desc@.len(),
    {
        let id = SignalID(self.desc.len());
        self.desc.push(None);
        id
    }

    /// Assigns `loc` an input operation driven by `handler`.
    pub fn mk_input(&mut self, loc: SignalID, handler: InputHandler) -> (r: Result<
        (),
        BuilderError,
    >)
        ensures
            assign_result(
                old(self).desc@,
                final(self).desc@,
                loc,
                Operation::Input(handler),
                r,
            ),
    {
        let op = Operation::Input(handler);
        self.assign(loc, op)
    }

    /// Assigns `loc` an output operation that mirrors and reports slot
    /// `var`.
    pub fn mk_output(&mut self, loc: SignalID, var: SignalID, handler: OutputHandler) -> (r: Result<
        (),
        BuilderError,
    >)
        requires
            var.0 < old(self).desc@.len(),
        ensures
            assign_result(
                old(self).desc@,
                final(self).desc@,
                loc,
                Operation::Output(var, handler),
                r,
            ),
    {
        let op = Operation::Output(var, handler);
        self.assign(loc, op)
    }

    /// Assigns `loc` the conjunction of slots `lhs` and `rhs`.
    pub fn mk_and(&mut self, loc: SignalID, lhs: SignalID, rhs: SignalID) -> (r: Result<
        (),
        BuilderError,
    >)
        requires
            lhs.0 < old(self).desc@.len(),
            rhs.0 < old(self).desc@.len(),
        ensures
            assign_result(old(self).desc@, final(self).desc@, loc, Operation::And(lhs, rhs), r),
    {
        self.assign(loc, Operation::And(lhs, rhs))
    }

    /// Assigns `loc` the negated conjunction of slots `lhs` and `rhs`.
    pub fn mk_nand(&mut self, loc: SignalID, lhs: SignalID, rhs: SignalID) -> (r: Result<
        (),
        BuilderError,
    >)
        requires
            lhs.0 < old(self).desc@.len(),
            rhs.0 < old(self).desc@.len(),
        ensures
            assign_result(old(self).desc@, final(self).desc@, loc, Operation::Nand(lhs, rhs), r),
    {
        self.assign(loc, Operation::Nand(lhs, rhs))
    }

    /// Assigns `loc` the disjunction of slots `lhs` and `rhs`.
    pub fn mk_or(&mut self, loc: SignalID, lhs: SignalID, rhs: SignalID) -> (r: Result<
        (),
        BuilderError,
    >)
        requires
            lhs.0 < old(self).desc@.len(),
            rhs.0 < old(self).desc@.len(),
        ensures
            assign_result(old(self).desc@, final(self).desc@, loc, Operation::Or(lhs, rhs), r),
    {
        self.assign(loc, Operation::Or(lhs, rhs))
    }

    /// Assigns `loc` the negated disjunction of slots `lhs` and `rhs`.
    pub fn mk_nor(&mut self, loc: SignalID, lhs: SignalID, rhs: SignalID) -> (r: Result<
        (),
        BuilderError,
    >)
        requires
            lhs.0 < old(self).desc@.len(),
            rhs.0 < old(self).desc@.len(),
        ensures
            assign_result(old(self).desc@, final(self).desc@, loc, Operation::Nor(lhs, rhs), r),
    {
        self.assign(loc, Operation::Nor(lhs, rhs))
    }

    /// Assigns `loc` the exclusive or of slots `lhs` and `rhs`.
    pub fn mk_xor(&mut self, loc: SignalID, lhs: SignalID, rhs: SignalID) -> (r: Result<
        (),
        BuilderError,
    >)
        requires
            lhs.0 < old(self).desc@.len(),
            rhs.0 < old(self).desc@.len(),
        ensures
            assign_result(old(self).desc@, final(self).desc@, loc, Operation::Xor(lhs, rhs), r),
    {
        self.assign(loc, Operation::Xor(lhs, rhs))
    }

    /// Assigns `loc` the negated exclusive or of slots `lhs` and `rhs`.
    pub fn mk_xnor(&mut self, loc: SignalID, lhs: SignalID, rhs: SignalID) -> (r: Result<
        (),
        BuilderError,
    >)
        requires
            lhs.0 < old(self).desc@.len(),
            rhs.0 < old(self).desc@.len(),
        ensures
            assign_result(old(self).desc@, final(self).desc@, loc, Operation::Xnor(lhs, rhs), r),
    {
        self.assign(loc, Operation::Xnor(lhs, rhs))
    }

    /// Assigns `loc` the complement of slot `var`.
    pub fn mk_not(&mut self, loc: SignalID, var: SignalID) -> (r: Result<(), BuilderError>)
        requires
            var.0 < old(self).desc@.len(),
        ensures
            assign_result(old(self).desc@, final(self).desc@, loc, Operation::Not(var), r),
    {
        self.assign(loc, Operation::Not(var))
    }

    /// Stores `op` into slot `loc` if the slot exists and is still empty.
    fn assign(&mut self, loc: SignalID, op: Operation) -> (r: Result<(), BuilderError>)
        ensures
            assign_result(old(self).desc@, final(self).desc@, loc, op, r),
    {
        if loc.0 >= self.desc.len() {
            return Err(BuilderError::UnallocatedLocation);
        }
        match &self.desc[loc.0] {
            Some(_) => Err(BuilderError::DuplicateAssignment),
            None => {
                self.desc.set(loc.0, Some(op));
                Ok(())
            },
        }
    }

    /// Consumes the builder into the immutable flat operation array,
    /// substituting for every still-unassigned slot an input that reads
    /// `HighImpedance` forever.
    pub fn into_desc(self) -> (r: Vec<Operation>)
        ensures
            finalizes(self.desc@, r@),
    {
        let ghost orig = self.desc@;
        let mut rest = self.desc;
        let mut reversed: Vec<Operation> = Vec::new();
        loop
            invariant
                rest@ == orig.subrange(0, orig.len() - reversed@.len()),
                reversed@.len() <= orig.len(),
                forall|j: int|
                    0 <= j < reversed@.len() ==> reversed@[j] == match orig[orig.len() - 1 - j] {
                        Some(op) => op,
                        None => hiz_input(),
                    },
            ensures
                rest@.len() == 0,
                reversed@.len() == orig.len(),
            decreases rest@.len(),
        {
            match rest.pop() {
                Some(entry) => {
                    match entry {
                        Some(op) => reversed.push(op),
                        None => reversed.push(
                            Operation::Input(
                                InputHandler {
                                    wave: crate::operation::InputWave::Constant(
                                        crate::signal::Signal::HighImpedance,
                                    ),
                                },
                            ),
                        ),
                    }
                },
                None => {
                    break ;
                },
            }
        }
        let mut out: Vec<Operation> = Vec::new();
        loop
            invariant
                reversed@.len() + out@.len() == orig.len(),
                forall|j: int|
                    0 <= j < reversed@.len() ==> reversed@[j] == match orig[orig.len() - 1 - j] {
                        Some(op) => op,
                        None => hiz_input(),
                    },
                forall|j: int|
                    0 <= j < out@.len() ==> out@[j] == match orig[j] {
                        Some(op) => op,
                        None => hiz_input(),
                    },
            ensures
                out@.len() == orig.len(),
            decreases reversed@.len(),
        {
            match reversed.pop() {
                Some(op) => out.push(op),
                None => {
                    break ;
                },
            }
        }
        out
    }
}

/// Every assigned operation of `s` references only slots inside `s`.
pub open spec fn gld_closed(s: Seq<Option<Operation>>) -> bool {
    forall|i: int|
        0 <= i < s.len() ==> (#[trigger] s[i] matches Some(op) ==> op.in_bounds(s.len() as int))
}

/// `post` extends `pre` with fresh, unassigned slots and changes nothing
/// else.
pub open spec fn allocs_only(pre: Seq<Option<Operation>>, post: Seq<Option<Operation>>) -> bool {
    &&& pre.len() <= post.len()
    &&& post.subrange(0, pre.len() as int) == pre
    &&& forall|j: int| pre.len() <= j < post.len() ==> (#[trigger] post[j]) is None
}

/// `post` keeps every slot `pre` had assigned, with the same operation.
pub open spec fn grows_preserving(pre: Seq<Option<Operation>>, post: Seq<Option<Operation>>) -> bool {
    &&& pre.len() <= post.len()
    &&& forall|i: int| 0 <= i < pre.len() && (#[trigger] pre[i]) is Some ==> post[i] == pre[i]
}

/// Appending an unassigned slot leaves the assigned count unchanged.
pub proof fn lemma_assigned_count_push_none(s: Seq<Option<Operation>>)
    ensures
        assigned_count(s.push(None)) == assigned_count(s),
{
    assert(s.push(None).drop_last() =~= s);
}

/// Assigning an empty slot raises the assigned count by exactly one.
pub proof fn lemma_assigned_count_assign(s: Seq<Option<Operation>>, i: int, op: Operation)
    requires
        0 <= i < s.len(),
        s[i] is None,
    ensures
        assigned_count(s.update(i, Some(op))) == assigned_count(s) + 1,
    decreases s.len(),
{
    let u = s.update(i, Some(op));
    if i == s.len() - 1 {
        assert(u.drop_last() =~= s.drop_last());
    } else {
        assert(u.drop_last() =~= s.drop_last().update(i, Some(op)));
        lemma_assigned_count_assign(s.drop_last(), i, op);
    }
}

/// Fresh, unassigned slots leave the assigned count unchanged.
pub proof fn lemma_assigned_count_allocs(pre: Seq<Option<Operation>>, post: Seq<Option<Operation>>)
    requires
        allocs_only(pre, post),
    ensures
        assigned_count(post) == assigned_count(pre),
    decreases post.len(),
{
    if post.len() > pre.len() {
        assert(allocs_only(pre, post.drop_last())) by {
            assert(post.drop_last().subrange(0, pre.len() as int) =~= post.subrange(
                0,
                pre.len() as int,
            ));
        }
        lemma_assigned_count_allocs(pre, post.drop_last());
    } else {
        assert(post =~= pre);
    }
}

/// Allocating slots and assigning only some of them leaves exactly one
/// high-impedance fallback entry per unassigned slot: as long as no assigned
/// operation is itself the fallback input, the fallback count of the flat
/// array plus the assigned count of the staging array equals the slot count.
pub proof fn lemma_into_desc_fallback_count(pre: Seq<Option<Operation>>, post: Seq<Operation>)
    requires
        post.len() == pre.len(),
        forall|i: int|
            0 <= i < post.len() ==> post[i] == match pre[i] {
                Some(op) => op,
                None => hiz_input(),
            },
        forall|i: int|
            0 <= i < pre.len() ==> (#[trigger] pre[i] matches Some(op) ==> op != hiz_input()),
    ensures
        hiz_count(post) + assigned_count(pre) == pre.len(),
    decreases pre.len(),
{
    if pre.len() > 0 {
        lemma_into_desc_fallback_count(pre.drop_last(), post.drop_last());
    }
}

} // verus!
