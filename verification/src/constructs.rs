//! Multi-gate constructs assembled on the flat builder: circuit elements
//! that are in actuality small graphs of primitive gates.

use vstd::prelude::*;

use crate::builder::BuilderError;
use crate::operation::{Operation, SignalID};
use crate::rz_module::RzModule;

verus! {

/// Constructs an unclocked cross-coupled NOR latch in `module`, taking the
/// already-allocated `set` and `rst` nodes as its inputs. Two fresh slots are
/// allocated and cross-wired: each NOR reads one free input and the other
/// NOR's output. The returned pair is `(Q, Qbar)`.
pub fn latch(module: &mut RzModule, set: SignalID, rst: SignalID) -> (r: Result<
    (SignalID, SignalID),
    BuilderError,
>)
    requires
        set.0 < old(module).desc().len(),
        rst.0 < old(module).desc().len(),
    ensures
        r matches Ok((q, qbar)) && q.0 == old(module).desc().len() && qbar.0 == old(
            module,
        ).desc().len() + 1,
        final(module).desc().len() == old(module).desc().len() + 2,
        forall|i: int|
            0 <= i < old(module).desc().len() ==> final(module).desc()[i] == old(module).desc()[i],
        final(module).desc()[old(module).desc().len() as int] == Some(
            Operation::Nor(rst, SignalID((old(module).desc().len() + 1) as usize)),
        ),
        final(module).desc()[old(module).desc().len() as int + 1] == Some(
            Operation::Nor(set, SignalID(old(module).desc().len() as usize)),
        ),
{
    let q = module.rz_alloc();
    let qbar = module.rz_alloc();
    match module.mk_nor(q, (rst, qbar)) {
        Ok(()) => {},
        Err(e) => {
            return Err(e);
        },
    }
    match module.mk_nor(qbar, (set, q)) {
        Ok(()) => {},
        Err(e) => {
            return Err(e);
        },
    }
    Ok((q, qbar))
}

/// Constructs a level-sensitive D latch with an enable pin in `module`: the
/// data input is complemented, gated with the enable on both sides, and fed
/// into a cross-coupled NOR latch. The returned pair is `(Q, Qbar)`.
pub fn d_latch(module: &mut RzModule, dat: SignalID, en: SignalID) -> (r: Result<
    (SignalID, SignalID),
    BuilderError,
>)
    requires
        dat.0 < old(module).desc().len(),
        en.0 < old(module).desc().len(),
    ensures
        r matches Ok((q, qbar)) && q.0 == old(module).desc().len() + 3 && qbar.0 == old(
            module,
        ).desc().len() + 4,
        final(module).desc().len() == old(module).desc().len() + 5,
        forall|i: int|
            0 <= i < old(module).desc().len() ==> final(module).desc()[i] == old(module).desc()[i],
        final(module).desc()[old(module).desc().len() as int] == Some(Operation::Not(dat)),
        final(module).desc()[old(module).desc().len() as int + 1] == Some(Operation::And(en, dat)),
        final(module).desc()[old(module).desc().len() as int + 2] == Some(
            Operation::And(en, SignalID(old(module).desc().len() as usize)),
        ),
        final(module).desc()[old(module).desc().len() as int + 3] == Some(
            Operation::Nor(
                SignalID((old(module).desc().len() + 2) as usize),
                SignalID((old(module).desc().len() + 4) as usize),
            ),
        ),
        final(module).desc()[old(module).desc().len() as int + 4] == Some(
            Operation::Nor(
                SignalID((old(module).desc().len() + 1) as usize),
                SignalID((old(module).desc().len() + 3) as usize),
            ),
        ),
{
    let dat_bar = module.rz_alloc();
    let en_data = module.rz_alloc();
    let en_data_bar = module.rz_alloc();

    match module.mk_not(dat_bar, dat) {
        Ok(()) => {},
        Err(e) => {
            return Err(e);
        },
    }
    match module.mk_and(en_data, (en, dat)) {
        Ok(()) => {},
        Err(e) => {
            return Err(e);
        },
    }
    match module.mk_and(en_data_bar, (en, dat_bar)) {
        Ok(()) => {},
        Err(e) => {
            return Err(e);
        },
    }
    latch(module, en_data, en_data_bar)
}

} // verus!
