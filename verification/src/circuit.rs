//! The tick-synchronous evaluation engine.
//!
//! A [`Circuit`] owns an immutable flat operation array and two equal-length
//! signal buffers. One call to [`Circuit::tick`] computes, for every slot, a
//! fresh value from the *current* buffer into the other buffer, swaps the two
//! buffers, and increments the tick counter. Slots are independent within a
//! tick: each one reads only the previous buffer and writes only its own
//! index, so the per-slot work is farmed out to a parallel map.

use vstd::prelude::*;

use crate::operation::{InputHandler, InputWave, Operation, OutputEvent, OutputHandler};
use crate::signal::Signal;

use rayon::iter::{IndexedParallelIterator, IntoParallelIterator, ParallelIterator};

verus! {

/// Every operation of `desc` references only slots inside `desc` itself.
pub open spec fn desc_wf(desc: Seq<Operation>) -> bool {
    forall|i: int| 0 <= i < desc.len() ==> #[trigger] desc[i].in_bounds(desc.len() as int)
}

/// The race-injection rule applied to a freshly sampled input value against
/// the value currently held by the slot: a clean `False` to `True` transition
/// becomes `UncontrolledTrue`, a clean `True` to `False` transition becomes
/// `UncontrolledFalse`, and every other pending value passes unchanged.
pub open spec fn race_adjust(pending: Signal, held: Signal) -> Signal {
    match (pending, held) {
        (Signal::True, Signal::False) => Signal::UncontrolledTrue,
        (Signal::False, Signal::True) => Signal::UncontrolledFalse,
        (_, _) => pending,
    }
}

/// The value slot `i` takes after one tick evaluated at raw tick `tick` with
/// sampling ratio `tpi`, reading the current buffer `sigs`.
pub open spec fn slot_next(
    desc: Seq<Operation>,
    sigs: Seq<Signal>,
    tick: int,
    tpi: int,
    i: int,
) -> Signal {
    match desc[i] {
        Operation::Input(h) => {
            if tick % tpi == 0 {
                race_adjust(h.wave.spec_at(tick / tpi), sigs[i])
            } else {
                sigs[i]
            }
        },
        Operation::Output(src, _) => sigs[src.0 as int],
        Operation::Not(a) => sigs[a.0 as int].spec_not(),
        Operation::And(a, b) => sigs[a.0 as int].spec_and(sigs[b.0 as int]),
        Operation::Nand(a, b) => sigs[a.0 as int].spec_and(sigs[b.0 as int]).spec_not(),
        Operation::Or(a, b) => sigs[a.0 as int].spec_or(sigs[b.0 as int]),
        Operation::Nor(a, b) => sigs[a.0 as int].spec_or(sigs[b.0 as int]).spec_not(),
        Operation::Xor(a, b) => sigs[a.0 as int].spec_xor(sigs[b.0 as int]),
        Operation::Xnor(a, b) => sigs[a.0 as int].spec_xor(sigs[b.0 as int]).spec_not(),
    }
}

/// The whole next buffer: every slot advanced by one tick.
pub open spec fn next_sigs(desc: Seq<Operation>, sigs: Seq<Signal>, tick: int, tpi: int) -> Seq<
    Signal,
> {
    Seq::new(desc.len(), |i: int| slot_next(desc, sigs, tick, tpi, i))
}

/// The signal buffer after `n` further ticks, the first of them evaluated at
/// raw tick `tick`.
pub open spec fn run_sigs(desc: Seq<Operation>, sigs: Seq<Signal>, tick: int, tpi: int, n: nat) -> Seq<
    Signal,
>
    decreases n,
{
    if n == 0 {
        sigs
    } else {
        next_sigs(desc, run_sigs(desc, sigs, tick, tpi, (n - 1) as nat), tick + n - 1, tpi)
    }
}

/// The output events reported by the `Output` slots among the first `n` slots
/// during a tick evaluated at raw tick `tick`: slot order, one event per
/// `Output` slot, carrying the value copied from its source.
pub open spec fn events_upto(
    desc: Seq<Operation>,
    sigs: Seq<Signal>,
    tick: u128,
    n: int,
) -> Seq<OutputEvent>
    decreases n,
{
    if n <= 0 {
        Seq::empty()
    } else {
        let rest = events_upto(desc, sigs, tick, n - 1);
        match desc[n - 1] {
            Operation::Output(src, _) => rest.push(
                OutputEvent { slot: (n - 1) as usize, tick, signal: sigs[src.0 as int] },
            ),
            _ => rest,
        }
    }
}

/// All output events of one tick evaluated at raw tick `tick`.
pub open spec fn output_events(desc: Seq<Operation>, sigs: Seq<Signal>, tick: u128) -> Seq<
    OutputEvent,
> {
    events_upto(desc, sigs, tick, desc.len() as int)
}

/// Whether one reported event agrees with the expectation of the output
/// handler at its slot; events at slots without an expectation pass.
pub open spec fn event_ok(desc: Seq<Operation>, e: OutputEvent) -> bool {
    if e.slot < desc.len() {
        match desc[e.slot as int] {
            Operation::Output(_, h) => match h.check.spec_expected(e.tick as int) {
                Some(expect) => e.signal == expect,
                None => true,
            },
            _ => true,
        }
    } else {
        true
    }
}

/// Evaluates one slot of the circuit for one tick, reading only the current
/// buffer.
fn eval_slot(desc: &Vec<Operation>, sigs: &Vec<Signal>, tick: u128, tpi: usize, i: usize) -> (r:
    Signal)
    requires
        desc_wf(desc@),
        sigs@.len() == desc@.len(),
        tpi >= 1,
        i < desc@.len(),
    ensures
        r == slot_next(desc@, sigs@, tick as int, tpi as int, i as int),
{
    assert(desc@[i as int].in_bounds(desc@.len() as int));
    match &desc[i] {
        Operation::Input(h) => {
            if tick % (tpi as u128) == 0 {
                let pending = h.sample(tick / (tpi as u128));
                match (pending, sigs[i]) {
                    (Signal::True, Signal::False) => Signal::UncontrolledTrue,
                    (Signal::False, Signal::True) => Signal::UncontrolledFalse,
                    (_, _) => pending,
                }
            } else {
                sigs[i]
            }
        },
        Operation::Output(src, _) => sigs[src.0],
        Operation::Not(a) => sigs[a.0].not(),
        Operation::And(a, b) => sigs[a.0].and(sigs[b.0]),
        Operation::Nand(a, b) => sigs[a.0].and(sigs[b.0]).not(),
        Operation::Or(a, b) => sigs[a.0].or(sigs[b.0]),
        Operation::Nor(a, b) => sigs[a.0].or(sigs[b.0]).not(),
        Operation::Xor(a, b) => sigs[a.0].xor(sigs[b.0]),
        Operation::Xnor(a, b) => sigs[a.0].xor(sigs[b.0]).not(),
    }
}

/// Fills `out` with the next value of every slot, computed in parallel.
///
/// Relies on rayon: `into_par_iter` over an integer range with `map` and
/// `collect_into_vec` clears `out` and fills it with the mapped value of
/// every index of the range, in index order, exactly as a sequential map
/// would. The closure only calls the verified `eval_slot`, which is a pure
/// function of its arguments, so every schedule produces the same buffer.
#[verifier::external_body]
fn par_next_signals(
    desc: &Vec<Operation>,
    sigs: &Vec<Signal>,
    tick: u128,
    tpi: usize,
    out: &mut Vec<Signal>,
)
    requires
        desc_wf(desc@),
        sigs@.len() == desc@.len(),
        tpi >= 1,
    ensures
        final(out)@.len() == desc@.len(),
        forall|i: int|
            0 <= i < desc@.len() ==> final(out)@[i] == slot_next(
                desc@,
                sigs@,
                tick as int,
                tpi as int,
                i,
            ),
{
    (0..desc.len()).into_par_iter().map(|i| eval_slot(desc, sigs, tick, tpi, i)).collect_into_vec(
        out,
    );
}

/// The evaluation engine: an immutable flat operation array, two signal
/// buffers, the input sampling ratio, and the monotonically increasing tick
/// counter.
#[derive(Debug)]
pub struct Circuit {
    description: Vec<Operation>,
    signals: Vec<Signal>,
    signals_swap: Vec<Signal>,
    ticks_per_input: usize,
    tick_counter: u128,
}

impl Circuit {
    /// The flat operation array.
    pub closed spec fn desc(self) -> Seq<Operation> {
        self.description@
    }

    /// The current signal buffer.
    pub closed spec fn sigs(self) -> Seq<Signal> {
        self.signals@
    }

    /// The sampling ratio: raw ticks between input handler invocations.
    pub closed spec fn tpi(self) -> usize {
        self.ticks_per_input
    }

    /// The number of ticks evaluated so far.
    pub closed spec fn tick_count(self) -> u128 {
        self.tick_counter
    }

    /// Structural well-formedness: both buffers match the description in
    /// length, every operand reference is in bounds, and the sampling ratio
    /// is positive.
    pub closed spec fn wf(self) -> bool {
        &&& desc_wf(self.description@)
        &&& self.signals@.len() == self.description@.len()
        &&& self.signals_swap@.len() == self.description@.len()
        &&& self.ticks_per_input >= 1
    }

    /// Produces a new circuit from a flat operation array.
    ///
    /// `tpi` is the sampling ratio: how many raw ticks pass between
    /// invocations of each input handler. Callers should choose it larger
    /// than the propagation depth of the circuit, or sampling artifacts
    /// occur. Both signal buffers start out all `Undefined`.
    pub fn new(description: Vec<Operation>, tpi: usize) -> (r: Circuit)
        requires
            tpi >= 1,
            desc_wf(description@),
        ensures
            r.wf(),
            r.desc() == description@,
            r.tpi() == tpi,
            r.tick_count() == 0,
            r.sigs() == Seq::new(description@.len(), |i: int| Signal::Undefined),
    {
        let n = description.len();
        let mut initial_state: Vec<Signal> = Vec::new();
        let mut initial_swap: Vec<Signal> = Vec::new();
        let mut i: usize = 0;
        while i < n
            invariant
                i <= n,
                initial_state@ =~= Seq::new(i as nat, |k: int| Signal::Undefined),
                initial_swap@ =~= Seq::new(i as nat, |k: int| Signal::Undefined),
            decreases n - i,
        {
            initial_state.push(Signal::Undefined);
            initial_swap.push(Signal::Undefined);
            i = i + 1;
        }
        Circuit {
            description,
            signals: initial_state,
            signals_swap: initial_swap,
            ticks_per_input: tpi,
            tick_counter: 0,
        }
    }

    /// Steps the simulation forward one tick and reports the output events
    /// of that tick, in slot order.
    ///
    /// Every slot's fresh value is computed from the current buffer, the two
    /// buffers are exchanged, and the tick counter advances by one. `Output`
    /// slots report every tick; `Input` slots are refreshed only on sampling
    /// ticks, with the race-injection rule applied against the held value.
    pub fn tick(&mut self) -> (events: Vec<OutputEvent>)
        requires
            old(self).wf(),
            old(self).tick_count() < u128::MAX,
        ensures
            final(self).wf(),
            final(self).desc() == old(self).desc(),
            final(self).tpi() == old(self).tpi(),
            final(self).tick_count() == old(self).tick_count() + 1,
            final(self).sigs() == next_sigs(
                old(self).desc(),
                old(self).sigs(),
                old(self).tick_count() as int,
                old(self).tpi() as int,
            ),
            events@ == output_events(old(self).desc(), old(self).sigs(), old(self).tick_count()),
    {
        par_next_signals(
            &self.description,
            &self.signals,
            self.tick_counter,
            self.ticks_per_input,
            &mut self.signals_swap,
        );

        let mut events: Vec<OutputEvent> = Vec::new();
        let n = self.description.len();
        let mut i: usize = 0;
        while i < n
            invariant
                i <= n,
                n == self.description@.len(),
                self.description@ == old(self).desc(),
                self.signals@ == old(self).sigs(),
                self.tick_counter == old(self).tick_count(),
                self.ticks_per_input == old(self).tpi(),
                self.signals_swap@.len() == n,
                forall|k: int|
                    0 <= k < n ==> self.signals_swap@[k] == slot_next(
                        self.description@,
                        self.signals@,
                        self.tick_counter as int,
                        self.ticks_per_input as int,
                        k,
                    ),
                events@ == events_upto(
                    self.description@,
                    self.signals@,
                    self.tick_counter,
                    i as int,
                ),
            decreases n - i,
        {
            match &self.description[i] {
                Operation::Output(src, _) => {
                    events.push(
                        OutputEvent {
                            slot: i,
                            tick: self.tick_counter,
                            signal: self.signals_swap[i],
                        },
                    );
                },
                _ => {},
            }
            i = i + 1;
        }

        core::mem::swap(&mut self.signals, &mut self.signals_swap);
        self.tick_counter = self.tick_counter + 1;
        events
    }

    /// A read-only snapshot of the operation array and the current signal
    /// buffer, for tooling; output events are the primary output mechanism.
    pub fn inspect(&self) -> (r: (&Vec<Operation>, &Vec<Signal>))
        ensures
            r.0@ == self.desc(),
            r.1@ == self.sigs(),
    {
        (&self.description, &self.signals)
    }

    /// What well-formedness lets every caller rely on without reopening
    /// it: the signal buffer matches the description in length, every
    /// operand reference is in bounds, and the sampling ratio is positive.
    pub proof fn lemma_wf_facts(self)
        requires
            self.wf(),
        ensures
            self.sigs().len() == self.desc().len(),
            desc_wf(self.desc()),
            self.tpi() >= 1,
    {
    }

    /// The current tick of the simulation.
    pub fn get_tick(&self) -> (r: u128)
        ensures
            r == self.tick_count(),
    {
        self.tick_counter
    }

    /// Holds every event of one reported batch against the expectation of
    /// the output handler at its slot; true when all of them agree.
    pub fn check_outputs(&self, events: &Vec<OutputEvent>) -> (r: bool)
        ensures
            r == forall|k: int| 0 <= k < events@.len() ==> event_ok(self.desc(), #[trigger] events@[k]),
    {
        let mut i: usize = 0;
        while i < events.len()
            invariant
                i <= events@.len(),
                forall|k: int| 0 <= k < i ==> event_ok(self.desc(), #[trigger] events@[k]),
            decreases events@.len() - i,
        {
            let e = events[i];
            if e.slot < self.description.len() {
                match &self.description[e.slot] {
                    Operation::Output(_, h) => {
                        match h.expected(e.tick) {
                            Some(expect) => {
                                if !(e.signal == expect) {
                                    assert(!event_ok(self.desc(), events@[i as int]));
                                    return false;
                                }
                            },
                            None => {},
                        }
                    },
                    _ => {},
                }
            }
            i = i + 1;
        }
        true
    }
}

/// The operation that `into_desc` substitutes for a slot that was allocated
/// but never assigned: an input that reads `HighImpedance` forever.
pub open spec fn hiz_input() -> Operation {
    Operation::Input(InputHandler { wave: InputWave::Constant(Signal::HighImpedance) })
}

/// Running a circuit for `n + m` ticks is running it for `n` and then for
/// `m` more, the continuation starting where the first run left off.
pub proof fn lemma_run_sigs_compose(
    desc: Seq<Operation>,
    sigs: Seq<Signal>,
    tick: int,
    tpi: int,
    n: nat,
    m: nat,
)
    ensures
        run_sigs(desc, sigs, tick, tpi, n + m) == run_sigs(
            desc,
            run_sigs(desc, sigs, tick, tpi, n),
            tick + n,
            tpi,
            m,
        ),
    decreases m,
{
    if m > 0 {
        lemma_run_sigs_compose(desc, sigs, tick, tpi, n, (m - 1) as nat);
        assert(n + m - 1 == n + (m - 1) as nat);
    }
}

/// An `Input` slot holds its value unchanged between sampling ticks, and on a
/// sampling tick it is refreshed from its handler at logical tick
/// `tick / tpi`, with the race-injection override applied against the value
/// it held.
pub proof fn lemma_input_sampling(
    desc: Seq<Operation>,
    sigs: Seq<Signal>,
    tick: int,
    tpi: int,
    i: int,
)
    requires
        0 <= i < desc.len(),
        desc[i] is Input,
        tpi >= 1,
    ensures
        tick % tpi != 0 ==> slot_next(desc, sigs, tick, tpi, i) == sigs[i],
        tick % tpi == 0 ==> slot_next(desc, sigs, tick, tpi, i) == race_adjust(
            desc[i]->Input_0.wave.spec_at(tick / tpi),
            sigs[i],
        ),
{
}

/// A never-driven slot reads `HighImpedance` forever: starting from raw tick
/// zero, after any positive number of ticks the slot holds exactly
/// `HighImpedance`, whatever the rest of the circuit does.
pub proof fn lemma_unassigned_slot_stays_hiz(
    desc: Seq<Operation>,
    sigs: Seq<Signal>,
    tpi: int,
    i: int,
    n: nat,
)
    requires
        0 <= i < desc.len(),
        desc[i] == hiz_input(),
        sigs.len() == desc.len(),
        tpi >= 1,
        n >= 1,
    ensures
        run_sigs(desc, sigs, 0, tpi, n)[i] == Signal::HighImpedance,
    decreases n,
{
    if n == 1 {
        assert(0int % tpi == 0);
    } else {
        lemma_unassigned_slot_stays_hiz(desc, sigs, tpi, i, (n - 1) as nat);
        let prev = run_sigs(desc, sigs, 0, tpi, (n - 1) as nat);
        assert(run_sigs(desc, sigs, 0, tpi, n) == next_sigs(desc, prev, n - 1, tpi));
        assert(race_adjust(Signal::HighImpedance, prev[i]) == Signal::HighImpedance);
    }
}

} // verus!
