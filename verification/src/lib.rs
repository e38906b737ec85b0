//! A digital-logic simulator.
//!
//! A hierarchical hardware description (modules composed of primitive gates,
//! sub-module instances, and port proxies) is flattened into a flat array of
//! primitive operations addressed by integer handles, then evaluated
//! tick-by-tick with a double-buffered synchronous update over a six-valued
//! signal logic that makes feedback races and unconnected nets observable.

pub mod builder;
pub mod cells;
pub mod circuit;
pub mod constructs;
pub mod count;
pub mod layout;
pub mod lower;
pub mod netlist;
pub mod operation;
pub mod rz_module;
pub mod signal;

use vstd::prelude::*;

use crate::circuit::{run_sigs, Circuit};
use crate::operation::copy_signals;
use crate::signal::Signal;

verus! {

/// Runs `ticks` further simulation steps and returns a snapshot of the
/// signal buffer the run ended on, discarding the output events along the
/// way.
pub fn sim(circuit: &mut Circuit, ticks: u64) -> (r: Result<Vec<Signal>, &'static str>)
    requires
        old(circuit).wf(),
        old(circuit).tick_count() + ticks <= u128::MAX,
    ensures
        final(circuit).wf(),
        final(circuit).desc() == old(circuit).desc(),
        final(circuit).tpi() == old(circuit).tpi(),
        final(circuit).tick_count() == old(circuit).tick_count() + ticks,
        final(circuit).sigs() == run_sigs(
            old(circuit).desc(),
            old(circuit).sigs(),
            old(circuit).tick_count() as int,
            old(circuit).tpi() as int,
            ticks as nat,
        ),
        r matches Ok(v) && v@ == final(circuit).sigs(),
{
    let mut i: u64 = 0;
    while i < ticks
        invariant
            i <= ticks,
            circuit.wf(),
            circuit.desc() == old(circuit).desc(),
            circuit.tpi() == old(circuit).tpi(),
            old(circuit).tick_count() + ticks <= u128::MAX,
            circuit.tick_count() == old(circuit).tick_count() + i,
            circuit.sigs() == run_sigs(
                old(circuit).desc(),
                old(circuit).sigs(),
                old(circuit).tick_count() as int,
                old(circuit).tpi() as int,
                i as nat,
            ),
        decreases ticks - i,
    {
        let _events = circuit.tick();
        i = i + 1;
    }
    let (_desc, signals) = circuit.inspect();
    Ok(copy_signals(signals))
}

} // verus!
