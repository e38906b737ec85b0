//! The flat, address-based instruction set of a simulated circuit.
//!
//! Every non-I/O operation references its operand slots by integer index into
//! the flat signal array. Input and output handlers are closed, data-described
//! waveforms rather than arbitrary callbacks: an input handler is a pure
//! function of the logical tick, and an output handler describes what the
//! caller that drains the per-tick output events should do with a value.

use vstd::prelude::*;

use crate::signal::Signal;

verus! {

/// An opaque integer handle indexing into a flat circuit's shared
/// operation/signal address space.
#[derive(Clone, Copy, Debug, PartialEq, Eq, Structural, Hash)]
pub struct SignalID(pub usize);

/// Copies a signal buffer element by element.
pub(crate) fn copy_signals(v: &Vec<Signal>) -> (r: Vec<Signal>)
    ensures
        r@ == v@,
{
    let mut r: Vec<Signal> = Vec::new();
    let mut i: usize = 0;
    while i < v.len()
        invariant
            i <= v@.len(),
            r@ =~= v@.subrange(0, i as int),
        decreases v@.len() - i,
    {
        r.push(v[i]);
        i = i + 1;
    }
    proof {
        assert(v@.subrange(0, v@.len() as int) =~= v@);
    }
    r
}

/// Copies an edge list element by element.
pub(crate) fn copy_edges(v: &Vec<(u128, Signal)>) -> (r: Vec<(u128, Signal)>)
    ensures
        r@ == v@,
{
    let mut r: Vec<(u128, Signal)> = Vec::new();
    let mut i: usize = 0;
    while i < v.len()
        invariant
            i <= v@.len(),
            r@ =~= v@.subrange(0, i as int),
        decreases v@.len() - i,
    {
        r.push(v[i]);
        i = i + 1;
    }
    proof {
        assert(v@.subrange(0, v@.len() as int) =~= v@);
    }
    r
}

/// A pure, data-described input waveform: the value it produces depends only
/// on the logical tick at which it is sampled.
#[derive(Debug)]
pub enum InputWave {
    /// Always the same value; the fallback for never-driven slots is
    /// `Constant(Signal::HighImpedance)`.
    Constant(Signal),
    /// `False` for `half_period` logical ticks, then `True` for as many, and
    /// so on. A zero half-period never makes a full level and reads
    /// `Undefined`.
    Toggle { half_period: u128 },
    /// Starts a cycle `False` and rises once `tick % period` exceeds
    /// `pulse_width`. A zero period has no cycle to repeat and reads
    /// `Undefined`.
    Clock { period: u128, pulse_width: u128 },
    /// Replays `samples` cyclically once `setup_time` logical ticks have
    /// elapsed; before that, and when `samples` is empty, reads `Undefined`.
    Waveform { setup_time: u128, samples: Vec<Signal> },
}

impl InputWave {
    /// The value this waveform produces at the given logical tick.
    pub open spec fn spec_at(self, tick: int) -> Signal {
        match self {
            InputWave::Constant(s) => s,
            InputWave::Toggle { half_period } => {
                if half_period == 0 {
                    Signal::Undefined
                } else if (tick / (half_period as int)) % 2 == 0 {
                    Signal::False
                } else {
                    Signal::True
                }
            },
            InputWave::Clock { period, pulse_width } => {
                if period == 0 {
                    Signal::Undefined
                } else if tick % (period as int) > pulse_width {
                    Signal::True
                } else {
                    Signal::False
                }
            },
            InputWave::Waveform { setup_time, samples } => {
                if samples.len() == 0 || tick < setup_time {
                    Signal::Undefined
                } else {
                    samples@[(tick - setup_time) % (samples@.len() as int)]
                }
            },
        }
    }
}

impl Clone for InputWave {
    /// A copied waveform produces the same value at every logical tick.
    fn clone(&self) -> (res: Self)
        ensures
            forall|t: int| res.spec_at(t) == self.spec_at(t),
    {
        match self {
            InputWave::Constant(s) => InputWave::Constant(*s),
            InputWave::Toggle { half_period } => InputWave::Toggle { half_period: *half_period },
            InputWave::Clock { period, pulse_width } => InputWave::Clock {
                period: *period,
                pulse_width: *pulse_width,
            },
            InputWave::Waveform { setup_time, samples } => InputWave::Waveform {
                setup_time: *setup_time,
                samples: copy_signals(samples),
            },
        }
    }
}

/// Wraps an [`InputWave`]: the pure handler a circuit samples every
/// `ticks_per_input` raw ticks to refresh an `Input` slot.
#[derive(Debug)]
pub struct InputHandler {
    pub wave: InputWave,
}

impl Clone for InputHandler {
    /// A copied handler samples to the same value at every logical tick.
    fn clone(&self) -> (res: Self)
        ensures
            forall|t: int| res.wave.spec_at(t) == self.wave.spec_at(t),
    {
        InputHandler { wave: self.wave.clone() }
    }
}

impl InputHandler {
    /// Wraps a waveform as an input handler.
    pub fn new(wave: InputWave) -> (r: InputHandler)
        ensures
            r.wave == wave,
    {
        InputHandler { wave }
    }

    /// Samples the handler at a logical tick.
    pub fn sample(&self, tick: u128) -> (r: Signal)
        ensures
            r == self.wave.spec_at(tick as int),
    {
        match &self.wave {
            InputWave::Constant(s) => *s,
            InputWave::Toggle { half_period } => {
                if *half_period == 0 {
                    Signal::Undefined
                } else if (tick / *half_period) % 2 == 0 {
                    Signal::False
                } else {
                    Signal::True
                }
            },
            InputWave::Clock { period, pulse_width } => {
                if *period == 0 {
                    Signal::Undefined
                } else if tick % *period > *pulse_width {
                    Signal::True
                } else {
                    Signal::False
                }
            },
            InputWave::Waveform { setup_time, samples } => {
                if samples.len() == 0 || tick < *setup_time {
                    Signal::Undefined
                } else {
                    let len = samples.len() as u128;
                    let idx = ((tick - *setup_time) % len) as usize;
                    samples[idx]
                }
            },
        }
    }
}

/// What the consumer of a slot's output events expects to observe there.
///
/// The circuit itself only reports events; a test harness or front end holds
/// each event against the check described here.
#[derive(Debug)]
pub enum OutputCheck {
    /// No expectation: the event is reported and nothing is checked.
    Sink,
    /// After `setup_time` raw ticks the observed value must replay `waveform`
    /// cyclically. An empty waveform expects nothing.
    Assert { setup_time: u128, waveform: Vec<Signal> },
    /// A sparse edge list: after `setup_time` raw ticks, the expected value at
    /// position `(tick - phase_offset) % period` is the value of the edge with
    /// the largest position not past it, starting from `Undefined`. Without a
    /// period, or before `phase_offset`, nothing is expected.
    DeltaAssert { edges: Vec<(u128, Signal)>, period: u128, setup_time: u128, phase_offset: u128 },
}

/// The edge of `edges` with the largest position at most `pos`, later entries
/// winning ties, starting from the implicit initial edge `(0, Undefined)`.
pub open spec fn last_edge_at(edges: Seq<(u128, Signal)>, pos: int) -> (u128, Signal)
    decreases edges.len(),
{
    if edges.len() == 0 {
        (0u128, Signal::Undefined)
    } else {
        let prev = last_edge_at(edges.drop_last(), pos);
        let e = edges.last();
        if e.0 <= pos && e.0 >= prev.0 {
            e
        } else {
            prev
        }
    }
}

impl OutputCheck {
    /// The value this check expects at the given raw tick, if any.
    pub open spec fn spec_expected(self, tick: int) -> Option<Signal> {
        match self {
            OutputCheck::Sink => None,
            OutputCheck::Assert { setup_time, waveform } => {
                if waveform.len() == 0 || tick < setup_time {
                    None
                } else {
                    Some(waveform@[(tick - setup_time) % (waveform@.len() as int)])
                }
            },
            OutputCheck::DeltaAssert { edges, period, setup_time, phase_offset } => {
                if period == 0 || tick < setup_time || tick < phase_offset {
                    None
                } else {
                    Some(last_edge_at(edges@, (tick - phase_offset) % (period as int)).1)
                }
            },
        }
    }
}

impl Clone for OutputCheck {
    /// A copied check expects the same value at every raw tick.
    fn clone(&self) -> (res: Self)
        ensures
            forall|t: int| res.spec_expected(t) == self.spec_expected(t),
    {
        match self {
            OutputCheck::Sink => OutputCheck::Sink,
            OutputCheck::Assert { setup_time, waveform } => OutputCheck::Assert {
                setup_time: *setup_time,
                waveform: copy_signals(waveform),
            },
            OutputCheck::DeltaAssert { edges, period, setup_time, phase_offset } => {
                OutputCheck::DeltaAssert {
                    edges: copy_edges(edges),
                    period: *period,
                    setup_time: *setup_time,
                    phase_offset: *phase_offset,
                }
            },
        }
    }
}

/// Wraps an [`OutputCheck`]: the expectation attached to an `Output` slot.
#[derive(Debug)]
pub struct OutputHandler {
    pub check: OutputCheck,
}

impl Clone for OutputHandler {
    /// A copied handler expects the same value at every raw tick.
    fn clone(&self) -> (res: Self)
        ensures
            forall|t: int| res.check.spec_expected(t) == self.check.spec_expected(t),
    {
        OutputHandler { check: self.check.clone() }
    }
}

impl OutputHandler {
    /// Wraps a check as an output handler.
    pub fn new(check: OutputCheck) -> (r: OutputHandler)
        ensures
            r.check == check,
    {
        OutputHandler { check }
    }

    /// The value this handler expects at the given raw tick, if any.
    pub fn expected(&self, tick: u128) -> (r: Option<Signal>)
        ensures
            r == self.check.spec_expected(tick as int),
    {
        match &self.check {
            OutputCheck::Sink => None,
            OutputCheck::Assert { setup_time, waveform } => {
                if waveform.len() == 0 || tick < *setup_time {
                    None
                } else {
                    let len = waveform.len() as u128;
                    let idx = ((tick - *setup_time) % len) as usize;
                    Some(waveform[idx])
                }
            },
            OutputCheck::DeltaAssert { edges, period, setup_time, phase_offset } => {
                if *period == 0 || tick < *setup_time || tick < *phase_offset {
                    None
                } else {
                    let pos = (tick - *phase_offset) % *period;
                    let mut best: (u128, Signal) = (0, Signal::Undefined);
                    let mut i: usize = 0;
                    while i < edges.len()
                        invariant
                            i <= edges.len(),
                            best == last_edge_at(edges@.subrange(0, i as int), pos as int),
                        decreases edges.len() - i,
                    {
                        let e = edges[i];
                        proof {
                            assert(edges@.subrange(0, i as int + 1).drop_last() =~= edges@
                                .subrange(0, i as int));
                            assert(edges@.subrange(0, i as int + 1).last() == edges@[i as int]);
                        }
                        if e.0 <= pos && e.0 >= best.0 {
                            best = e;
                        }
                        i = i + 1;
                    }
                    proof {
                        assert(edges@.subrange(0, edges@.len() as int) =~= edges@);
                    }
                    Some(best.1)
                }
            },
        }
    }
}

/// One flat, integer-addressed primitive operation.
///
/// Gate operands name the slots whose values in the current buffer feed the
/// gate; an `Output` names the slot whose value it copies and reports.
#[derive(Debug)]
pub enum Operation {
    Input(InputHandler),
    Output(SignalID, OutputHandler),
    Not(SignalID),
    And(SignalID, SignalID),
    Nand(SignalID, SignalID),
    Or(SignalID, SignalID),
    Nor(SignalID, SignalID),
    Xor(SignalID, SignalID),
    Xnor(SignalID, SignalID),
}

impl Clone for Operation {
    /// A copied operation is the same instruction: the same variant over
    /// the same operand slots, with a handler that behaves identically at
    /// every tick.
    fn clone(&self) -> (res: Self)
        ensures
            res.equiv(*self),
    {
        match self {
            Operation::Input(h) => Operation::Input(h.clone()),
            Operation::Output(src, h) => Operation::Output(*src, h.clone()),
            Operation::Not(a) => Operation::Not(*a),
            Operation::And(a, b) => Operation::And(*a, *b),
            Operation::Nand(a, b) => Operation::Nand(*a, *b),
            Operation::Or(a, b) => Operation::Or(*a, *b),
            Operation::Nor(a, b) => Operation::Nor(*a, *b),
            Operation::Xor(a, b) => Operation::Xor(*a, *b),
            Operation::Xnor(a, b) => Operation::Xnor(*a, *b),
        }
    }
}

impl Operation {
    /// Whether two operations are the same instruction: the same variant
    /// over the same operand slots, with handlers that behave identically
    /// at every tick.
    pub open spec fn equiv(self, o: Operation) -> bool {
        match (self, o) {
            (Operation::Input(h), Operation::Input(h2)) => forall|t: int|
                h.wave.spec_at(t) == h2.wave.spec_at(t),
            (Operation::Output(a, h), Operation::Output(b, h2)) => a == b && forall|t: int|
                h.check.spec_expected(t) == h2.check.spec_expected(t),
            (Operation::Not(a), Operation::Not(b)) => a == b,
            (Operation::And(a, b), Operation::And(c, d)) => a == c && b == d,
            (Operation::Nand(a, b), Operation::Nand(c, d)) => a == c && b == d,
            (Operation::Or(a, b), Operation::Or(c, d)) => a == c && b == d,
            (Operation::Nor(a, b), Operation::Nor(c, d)) => a == c && b == d,
            (Operation::Xor(a, b), Operation::Xor(c, d)) => a == c && b == d,
            (Operation::Xnor(a, b), Operation::Xnor(c, d)) => a == c && b == d,
            (_, _) => false,
        }
    }

    /// Every slot this operation reads lies below `bound`.
    pub open spec fn in_bounds(self, bound: int) -> bool {
        match self {
            Operation::Input(_) => true,
            Operation::Output(src, _) => src.0 < bound,
            Operation::Not(a) => a.0 < bound,
            Operation::And(a, b) => a.0 < bound && b.0 < bound,
            Operation::Nand(a, b) => a.0 < bound && b.0 < bound,
            Operation::Or(a, b) => a.0 < bound && b.0 < bound,
            Operation::Nor(a, b) => a.0 < bound && b.0 < bound,
            Operation::Xor(a, b) => a.0 < bound && b.0 < bound,
            Operation::Xnor(a, b) => a.0 < bound && b.0 < bound,
        }
    }
}

/// One output observation produced while evaluating a tick: the value that
/// `Output` slot `slot` copied from its source during raw tick `tick`.
#[derive(Clone, Copy, Debug, PartialEq, Eq, Structural)]
pub struct OutputEvent {
    pub slot: usize,
    pub tick: u128,
    pub signal: Signal,
}

} // verus!
