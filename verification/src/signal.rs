//! The six-valued signal domain and its boolean algebra.
//!
//! `False` and `True` behave as ordinary boolean values. The `Uncontrolled`
//! variants carry the same logical weight as their plain counterparts but mark
//! a value that arose from a race or feedback condition. `HighImpedance`
//! stands for "nothing drives this net" and `Undefined` for "never evaluated".

use vstd::prelude::*;

verus! {

/// Different signal states produced by a gate or circuit.
///
/// The derived total order exists only for deterministic comparisons and
/// carries no meaning beyond equality testing.
#[derive(Debug, Clone, Copy, PartialEq, Eq, Structural, PartialOrd, Ord, Hash)]
pub enum Signal {
    False,
    True,
    UncontrolledFalse,
    UncontrolledTrue,
    HighImpedance,
    Undefined,
}

impl Signal {
    /// Logical complement: swaps `False`/`True` and the two uncontrolled
    /// values, and is the identity on `HighImpedance` and `Undefined`.
    pub open spec fn spec_not(self) -> Signal {
        match self {
            Signal::False => Signal::True,
            Signal::True => Signal::False,
            Signal::UncontrolledFalse => Signal::UncontrolledTrue,
            Signal::UncontrolledTrue => Signal::UncontrolledFalse,
            Signal::HighImpedance => Signal::HighImpedance,
            Signal::Undefined => Signal::Undefined,
        }
    }

    /// Six-valued conjunction. `False` absorbs every definite operand, an
    /// uncontrolled operand keeps its uncontrolled marking, and
    /// `HighImpedance` propagates wherever no operand forces the result.
    pub open spec fn spec_and(self, rhs: Signal) -> Signal {
        match (self, rhs) {
            (Signal::False, Signal::False) => Signal::False,
            (Signal::False, Signal::True) => Signal::False,
            (Signal::False, Signal::UncontrolledFalse) => Signal::UncontrolledFalse,
            (Signal::False, Signal::UncontrolledTrue) => Signal::False,
            (Signal::False, Signal::HighImpedance) => Signal::False,
            (Signal::False, Signal::Undefined) => Signal::False,
            (Signal::True, Signal::False) => Signal::False,
            (Signal::True, Signal::True) => Signal::True,
            (Signal::True, Signal::UncontrolledFalse) => Signal::UncontrolledFalse,
            (Signal::True, Signal::UncontrolledTrue) => Signal::UncontrolledTrue,
            (Signal::True, Signal::HighImpedance) => Signal::HighImpedance,
            (Signal::True, Signal::Undefined) => Signal::Undefined,
            (Signal::UncontrolledFalse, Signal::False) => Signal::UncontrolledFalse,
            (Signal::UncontrolledFalse, Signal::True) => Signal::UncontrolledFalse,
            (Signal::UncontrolledFalse, Signal::UncontrolledFalse) => Signal::UncontrolledFalse,
            (Signal::UncontrolledFalse, Signal::UncontrolledTrue) => Signal::UncontrolledFalse,
            (Signal::UncontrolledFalse, Signal::HighImpedance) => Signal::UncontrolledFalse,
            (Signal::UncontrolledFalse, Signal::Undefined) => Signal::UncontrolledFalse,
            (Signal::UncontrolledTrue, Signal::False) => Signal::False,
            (Signal::UncontrolledTrue, Signal::True) => Signal::UncontrolledTrue,
            (Signal::UncontrolledTrue, Signal::UncontrolledFalse) => Signal::UncontrolledFalse,
            (Signal::UncontrolledTrue, Signal::UncontrolledTrue) => Signal::UncontrolledTrue,
            (Signal::UncontrolledTrue, Signal::HighImpedance) => Signal::HighImpedance,
            (Signal::UncontrolledTrue, Signal::Undefined) => Signal::Undefined,
            (Signal::HighImpedance, Signal::False) => Signal::False,
            (Signal::HighImpedance, Signal::True) => Signal::HighImpedance,
            (Signal::HighImpedance, Signal::UncontrolledFalse) => Signal::UncontrolledFalse,
            (Signal::HighImpedance, Signal::UncontrolledTrue) => Signal::HighImpedance,
            (Signal::HighImpedance, Signal::HighImpedance) => Signal::HighImpedance,
            (Signal::HighImpedance, Signal::Undefined) => Signal::HighImpedance,
            (Signal::Undefined, Signal::False) => Signal::False,
            (Signal::Undefined, Signal::True) => Signal::Undefined,
            (Signal::Undefined, Signal::UncontrolledFalse) => Signal::UncontrolledFalse,
            (Signal::Undefined, Signal::UncontrolledTrue) => Signal::Undefined,
            (Signal::Undefined, Signal::HighImpedance) => Signal::HighImpedance,
            (Signal::Undefined, Signal::Undefined) => Signal::Undefined,
        }
    }

    /// Six-valued disjunction. `True` absorbs every definite operand, an
    /// uncontrolled operand keeps its uncontrolled marking, and
    /// `HighImpedance` propagates wherever no operand forces the result.
    pub open spec fn spec_or(self, rhs: Signal) -> Signal {
        match (self, rhs) {
            (Signal::False, Signal::False) => Signal::False,
            (Signal::False, Signal::True) => Signal::True,
            (Signal::False, Signal::UncontrolledFalse) => Signal::UncontrolledFalse,
            (Signal::False, Signal::UncontrolledTrue) => Signal::UncontrolledTrue,
            (Signal::False, Signal::HighImpedance) => Signal::HighImpedance,
            (Signal::False, Signal::Undefined) => Signal::Undefined,
            (Signal::True, Signal::False) => Signal::True,
            (Signal::True, Signal::True) => Signal::True,
            (Signal::True, Signal::UncontrolledFalse) => Signal::True,
            (Signal::True, Signal::UncontrolledTrue) => Signal::UncontrolledTrue,
            (Signal::True, Signal::HighImpedance) => Signal::True,
            (Signal::True, Signal::Undefined) => Signal::True,
            (Signal::UncontrolledFalse, Signal::False) => Signal::UncontrolledFalse,
            (Signal::UncontrolledFalse, Signal::True) => Signal::True,
            (Signal::UncontrolledFalse, Signal::UncontrolledFalse) => Signal::UncontrolledFalse,
            (Signal::UncontrolledFalse, Signal::UncontrolledTrue) => Signal::UncontrolledTrue,
            (Signal::UncontrolledFalse, Signal::HighImpedance) => Signal::HighImpedance,
            (Signal::UncontrolledFalse, Signal::Undefined) => Signal::Undefined,
            (Signal::UncontrolledTrue, Signal::False) => Signal::UncontrolledTrue,
            (Signal::UncontrolledTrue, Signal::True) => Signal::UncontrolledTrue,
            (Signal::UncontrolledTrue, Signal::UncontrolledFalse) => Signal::UncontrolledTrue,
            (Signal::UncontrolledTrue, Signal::UncontrolledTrue) => Signal::UncontrolledTrue,
            (Signal::UncontrolledTrue, Signal::HighImpedance) => Signal::UncontrolledTrue,
            (Signal::UncontrolledTrue, Signal::Undefined) => Signal::UncontrolledTrue,
            (Signal::HighImpedance, Signal::False) => Signal::HighImpedance,
            (Signal::HighImpedance, Signal::True) => Signal::True,
            (Signal::HighImpedance, Signal::UncontrolledFalse) => Signal::HighImpedance,
            (Signal::HighImpedance, Signal::UncontrolledTrue) => Signal::UncontrolledTrue,
            (Signal::HighImpedance, Signal::HighImpedance) => Signal::HighImpedance,
            (Signal::HighImpedance, Signal::Undefined) => Signal::HighImpedance,
            (Signal::Undefined, Signal::False) => Signal::Undefined,
            (Signal::Undefined, Signal::True) => Signal::True,
            (Signal::Undefined, Signal::UncontrolledFalse) => Signal::Undefined,
            (Signal::Undefined, Signal::UncontrolledTrue) => Signal::UncontrolledTrue,
            (Signal::Undefined, Signal::HighImpedance) => Signal::HighImpedance,
            (Signal::Undefined, Signal::Undefined) => Signal::Undefined,
        }
    }

    /// Six-valued exclusive or. Either `HighImpedance` operand dominates,
    /// then `Undefined`; otherwise the result is the boolean exclusive or,
    /// uncontrolled whenever at least one operand is uncontrolled.
    pub open spec fn spec_xor(self, rhs: Signal) -> Signal {
        match (self, rhs) {
            (Signal::False, Signal::False) => Signal::False,
            (Signal::False, Signal::True) => Signal::True,
            (Signal::False, Signal::UncontrolledFalse) => Signal::UncontrolledFalse,
            (Signal::False, Signal::UncontrolledTrue) => Signal::UncontrolledTrue,
            (Signal::False, Signal::HighImpedance) => Signal::HighImpedance,
            (Signal::False, Signal::Undefined) => Signal::Undefined,
            (Signal::True, Signal::False) => Signal::True,
            (Signal::True, Signal::True) => Signal::False,
            (Signal::True, Signal::UncontrolledFalse) => Signal::UncontrolledTrue,
            (Signal::True, Signal::UncontrolledTrue) => Signal::UncontrolledFalse,
            (Signal::True, Signal::HighImpedance) => Signal::HighImpedance,
            (Signal::True, Signal::Undefined) => Signal::Undefined,
            (Signal::UncontrolledFalse, Signal::False) => Signal::UncontrolledFalse,
            (Signal::UncontrolledFalse, Signal::True) => Signal::UncontrolledTrue,
            (Signal::UncontrolledFalse, Signal::UncontrolledFalse) => Signal::UncontrolledFalse,
            (Signal::UncontrolledFalse, Signal::UncontrolledTrue) => Signal::UncontrolledTrue,
            (Signal::UncontrolledFalse, Signal::HighImpedance) => Signal::HighImpedance,
            (Signal::UncontrolledFalse, Signal::Undefined) => Signal::Undefined,
            (Signal::UncontrolledTrue, Signal::False) => Signal::UncontrolledTrue,
            (Signal::UncontrolledTrue, Signal::True) => Signal::UncontrolledFalse,
            (Signal::UncontrolledTrue, Signal::UncontrolledFalse) => Signal::UncontrolledTrue,
            (Signal::UncontrolledTrue, Signal::UncontrolledTrue) => Signal::UncontrolledFalse,
            (Signal::UncontrolledTrue, Signal::HighImpedance) => Signal::HighImpedance,
            (Signal::UncontrolledTrue, Signal::Undefined) => Signal::Undefined,
            (Signal::HighImpedance, Signal::False) => Signal::HighImpedance,
            (Signal::HighImpedance, Signal::True) => Signal::HighImpedance,
            (Signal::HighImpedance, Signal::UncontrolledFalse) => Signal::HighImpedance,
            (Signal::HighImpedance, Signal::UncontrolledTrue) => Signal::HighImpedance,
            (Signal::HighImpedance, Signal::HighImpedance) => Signal::HighImpedance,
            (Signal::HighImpedance, Signal::Undefined) => Signal::HighImpedance,
            (Signal::Undefined, Signal::False) => Signal::Undefined,
            (Signal::Undefined, Signal::True) => Signal::Undefined,
            (Signal::Undefined, Signal::UncontrolledFalse) => Signal::Undefined,
            (Signal::Undefined, Signal::UncontrolledTrue) => Signal::Undefined,
            (Signal::Undefined, Signal::HighImpedance) => Signal::HighImpedance,
            (Signal::Undefined, Signal::Undefined) => Signal::Undefined,
        }
    }

    /// Logical complement of this signal.
    pub fn not(self) -> (r: Signal)
        ensures
            r == self.spec_not(),
    {
        match self {
            Signal::False => Signal::True,
            Signal::True => Signal::False,
            Signal::UncontrolledFalse => Signal::UncontrolledTrue,
            Signal::UncontrolledTrue => Signal::UncontrolledFalse,
            Signal::HighImpedance => Signal::HighImpedance,
            Signal::Undefined => Signal::Undefined,
        }
    }

    /// Six-valued conjunction of this signal with `rhs`.
    pub fn and(self, rhs: Signal) -> (r: Signal)
        ensures
            r == self.spec_and(rhs),
    {
        match (self, rhs) {
            (Signal::UncontrolledFalse, _) => Signal::UncontrolledFalse,
            (_, Signal::UncontrolledFalse) => Signal::UncontrolledFalse,
            (Signal::False, _) => Signal::False,
            (_, Signal::False) => Signal::False,
            (Signal::True, Signal::True) => Signal::True,
            (Signal::True, Signal::UncontrolledTrue) => Signal::UncontrolledTrue,
            (Signal::UncontrolledTrue, Signal::True) => Signal::UncontrolledTrue,
            (Signal::UncontrolledTrue, Signal::UncontrolledTrue) => Signal::UncontrolledTrue,
            (Signal::HighImpedance, _) => Signal::HighImpedance,
            (_, Signal::HighImpedance) => Signal::HighImpedance,
            (_, _) => Signal::Undefined,
        }
    }

    /// Six-valued disjunction of this signal with `rhs`.
    pub fn or(self, rhs: Signal) -> (r: Signal)
        ensures
            r == self.spec_or(rhs),
    {
        match (self, rhs) {
            (Signal::UncontrolledTrue, _) => Signal::UncontrolledTrue,
            (_, Signal::UncontrolledTrue) => Signal::UncontrolledTrue,
            (Signal::True, _) => Signal::True,
            (_, Signal::True) => Signal::True,
            (Signal::False, Signal::False) => Signal::False,
            (Signal::False, Signal::UncontrolledFalse) => Signal::UncontrolledFalse,
            (Signal::UncontrolledFalse, Signal::False) => Signal::UncontrolledFalse,
            (Signal::UncontrolledFalse, Signal::UncontrolledFalse) => Signal::UncontrolledFalse,
            (Signal::HighImpedance, _) => Signal::HighImpedance,
            (_, Signal::HighImpedance) => Signal::HighImpedance,
            (_, _) => Signal::Undefined,
        }
    }

    /// Six-valued exclusive or of this signal with `rhs`.
    pub fn xor(self, rhs: Signal) -> (r: Signal)
        ensures
            r == self.spec_xor(rhs),
    {
        match (self, rhs) {
            (Signal::HighImpedance, _) => Signal::HighImpedance,
            (_, Signal::HighImpedance) => Signal::HighImpedance,
            (Signal::Undefined, _) => Signal::Undefined,
            (_, Signal::Undefined) => Signal::Undefined,
            (Signal::False, Signal::False) => Signal::False,
            (Signal::False, Signal::True) => Signal::True,
            (Signal::True, Signal::False) => Signal::True,
            (Signal::True, Signal::True) => Signal::False,
            (Signal::False, Signal::UncontrolledFalse) => Signal::UncontrolledFalse,
            (Signal::False, Signal::UncontrolledTrue) => Signal::UncontrolledTrue,
            (Signal::True, Signal::UncontrolledFalse) => Signal::UncontrolledTrue,
            (Signal::True, Signal::UncontrolledTrue) => Signal::UncontrolledFalse,
            (Signal::UncontrolledFalse, Signal::False) => Signal::UncontrolledFalse,
            (Signal::UncontrolledFalse, Signal::True) => Signal::UncontrolledTrue,
            (Signal::UncontrolledTrue, Signal::False) => Signal::UncontrolledTrue,
            (Signal::UncontrolledTrue, Signal::True) => Signal::UncontrolledFalse,
            (Signal::UncontrolledFalse, Signal::UncontrolledFalse) => Signal::UncontrolledFalse,
            (Signal::UncontrolledFalse, Signal::UncontrolledTrue) => Signal::UncontrolledTrue,
            (Signal::UncontrolledTrue, Signal::UncontrolledFalse) => Signal::UncontrolledTrue,
            (Signal::UncontrolledTrue, Signal::UncontrolledTrue) => Signal::UncontrolledFalse,
        }
    }
}

/// Complement is an involution: applying it twice gives the argument back,
/// for every one of the six signal values.
pub proof fn lemma_not_involution(x: Signal)
    ensures
        x.spec_not().spec_not() == x,
{
}

/// Conjunction is commutative over the whole six-by-six table.
pub proof fn lemma_and_commutative(x: Signal, y: Signal)
    ensures
        x.spec_and(y) == y.spec_and(x),
{
}

/// Disjunction is commutative over the whole six-by-six table.
pub proof fn lemma_or_commutative(x: Signal, y: Signal)
    ensures
        x.spec_or(y) == y.spec_or(x),
{
}

/// Exclusive or is commutative over the whole six-by-six table.
pub proof fn lemma_xor_commutative(x: Signal, y: Signal)
    ensures
        x.spec_xor(y) == y.spec_xor(x),
{
}

} // verus!
