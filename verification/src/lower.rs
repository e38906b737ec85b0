//! The netlist-to-flat-circuit lowering algorithm.
//!
//! Lowering translates the hierarchical, named-port graph into the flat,
//! purely integer-addressed representation the evaluation engine requires,
//! while supporting arbitrary module reuse: every instantiation of a module
//! definition receives independently allocated flat slots. A per-invocation
//! namespace maps local port addresses to flat slots; it is seeded from the
//! allocations the parent supplied for the module's ports, and grows lazily
//! as wires are resolved. Unwired inputs each receive a fresh slot of their
//! own, which the builder later defaults to a permanent high-impedance
//! input.

use vstd::prelude::*;

use crate::builder::{
    allocs_only,
    assigned_count,
    finalizes,
    gld_closed,
    grows_preserving,
    lemma_assigned_count_allocs,
    lemma_assigned_count_assign,
    GateLevelDescription,
};
use crate::circuit::{desc_wf, Circuit};
use crate::netlist::{
    cells_flat,
    prim_count,
    wire_lookup,
    wire_source,
    Address,
    Cell,
    CellHandle,
    Drain,
    Module,
    ModuleHandle,
    Netlist,
    NetlistLowerError,
    Port,
    PortHandle,
    PortType,
    PrimitiveType,
    Source,
};
use crate::operation::{Operation, SignalID};
use crate::signal::Signal;

verus! {

/// Every slot the namespace mentions has been allocated: it lies below `n`.
pub open spec fn ns_valid(ns: Seq<(Address, SignalID)>, n: int) -> bool {
    forall|k: int| 0 <= k < ns.len() ==> (#[trigger] ns[k]).1.0 < n
}

/// No two namespace entries share an address.
pub open spec fn ns_keys_distinct(ns: Seq<(Address, SignalID)>) -> bool {
    forall|i: int, j: int| 0 <= i < j < ns.len() ==> (#[trigger] ns[i]).0 != (#[trigger] ns[j]).0
}

/// No two namespace entries share a flat slot.
pub open spec fn ns_values_distinct(ns: Seq<(Address, SignalID)>) -> bool {
    forall|i: int, j: int| 0 <= i < j < ns.len() ==> (#[trigger] ns[i]).1 != (#[trigger] ns[j]).1
}

/// The first slot the namespace binds to address `a`, in insertion order.
fn ns_get(ns: &Vec<(Address, SignalID)>, a: Address) -> (r: Option<SignalID>)
    ensures
        match r {
            Some(s) => exists|k: int| 0 <= k < ns@.len() && (#[trigger] ns@[k]) == (a, s),
            None => forall|k: int| 0 <= k < ns@.len() ==> (#[trigger] ns@[k]).0 != a,
        },
{
    let mut i: usize = 0;
    while i < ns.len()
        invariant
            i <= ns@.len(),
            forall|k: int| 0 <= k < i ==> (#[trigger] ns@[k]).0 != a,
        decreases ns@.len() - i,
    {
        let (addr, sid) = ns[i];
        if addr == a {
            proof {
                assert(ns@[i as int] == (a, sid));
            }
            return Some(sid);
        }
        i = i + 1;
    }
    None
}

/// Appending fresh slots preserves every assignment.
proof fn lemma_allocs_grows(pre: Seq<Option<Operation>>, post: Seq<Option<Operation>>)
    requires
        allocs_only(pre, post),
    ensures
        grows_preserving(pre, post),
{
    assert forall|i: int| 0 <= i < pre.len() && (#[trigger] pre[i]) is Some implies post[i]
        == pre[i] by {
        assert(post.subrange(0, pre.len() as int)[i] == post[i]);
    }
}

/// Preserving assignments is transitive.
proof fn lemma_grows_trans(
    a: Seq<Option<Operation>>,
    b: Seq<Option<Operation>>,
    c: Seq<Option<Operation>>,
)
    requires
        grows_preserving(a, b),
        grows_preserving(b, c),
    ensures
        grows_preserving(a, c),
{
    assert forall|i: int| 0 <= i < a.len() && (#[trigger] a[i]) is Some implies c[i] == a[i] by {
        assert(b[i] == a[i]);
    }
}

/// Appending fresh slots keeps the builder reference-closed.
proof fn lemma_allocs_closed(pre: Seq<Option<Operation>>, post: Seq<Option<Operation>>)
    requires
        allocs_only(pre, post),
        gld_closed(pre),
    ensures
        gld_closed(post),
{
    assert forall|i: int|
        0 <= i < post.len() implies (#[trigger] post[i] matches Some(op) ==> op.in_bounds(
        post.len() as int,
    )) by {
        if i < pre.len() {
            assert(post.subrange(0, pre.len() as int)[i] == post[i]);
            assert(pre[i] matches Some(op) ==> op.in_bounds(pre.len() as int));
        }
    }
}

/// Assigning one in-bounds operation keeps the builder reference-closed.
proof fn lemma_assign_closed(
    pre: Seq<Option<Operation>>,
    post: Seq<Option<Operation>>,
    loc: SignalID,
    op: Operation,
)
    requires
        loc.0 < pre.len(),
        post == pre.update(loc.0 as int, Some(op)),
        op.in_bounds(pre.len() as int),
        gld_closed(pre),
    ensures
        gld_closed(post),
{
    assert forall|i: int|
        0 <= i < post.len() implies (#[trigger] post[i] matches Some(q) ==> q.in_bounds(
        post.len() as int,
    )) by {
        if i != loc.0 {
            assert(post[i] == pre[i]);
        }
    }
}

/// How one port of a cell resolves, per the lowering's resolution rule: a
/// wired input reads the slot the namespace binds to its driving source
/// address — so every drain of one source shares one slot — an unwired
/// input holds a freshly allocated slot the namespace never mentions, and
/// an output reads the slot the namespace binds to the cell's own address.
pub open spec fn port_resolved(
    wires: Seq<(Drain, Source)>,
    ns: Seq<(Address, SignalID)>,
    pre_len: int,
    post_len: int,
    cell: CellHandle,
    k: int,
    ptype: PortType,
    sid: SignalID,
) -> bool {
    match ptype {
        PortType::Input => match wire_lookup(wires, Drain(Address(cell, PortHandle(k as usize)))) {
            Some(src) => exists|j: int| 0 <= j < ns.len() && (#[trigger] ns[j]) == (src.0, sid),
            None => pre_len <= sid.0 < post_len && forall|j: int|
                0 <= j < ns.len() ==> (#[trigger] ns[j]).1 != sid,
        },
        PortType::Output => exists|j: int|
            0 <= j < ns.len() && (#[trigger] ns[j]) == (Address(cell, PortHandle(k as usize)), sid),
    }
}

/// A resolved port stays resolved while the namespace only grows with
/// entries for slots at or past the allocation frontier.
proof fn lemma_port_resolved_persists(
    wires: Seq<(Drain, Source)>,
    ns_pre: Seq<(Address, SignalID)>,
    ns_post: Seq<(Address, SignalID)>,
    pre_len: int,
    len_a: int,
    len_b: int,
    cell: CellHandle,
    k: int,
    ptype: PortType,
    sid: SignalID,
)
    requires
        port_resolved(wires, ns_pre, pre_len, len_a, cell, k, ptype, sid),
        ns_post.len() >= ns_pre.len(),
        ns_post.subrange(0, ns_pre.len() as int) == ns_pre,
        forall|j: int| ns_pre.len() <= j < ns_post.len() ==> (#[trigger] ns_post[j]).1.0 >= len_a,
        len_a <= len_b,
        sid.0 < len_a,
    ensures
        port_resolved(wires, ns_post, pre_len, len_b, cell, k, ptype, sid),
{
    match ptype {
        PortType::Input => {
            match wire_lookup(wires, Drain(Address(cell, PortHandle(k as usize)))) {
                Some(src) => {
                    let j = choose|j: int|
                        0 <= j < ns_pre.len() && (#[trigger] ns_pre[j]) == (src.0, sid);
                    assert(ns_post.subrange(0, ns_pre.len() as int)[j] == ns_post[j]);
                },
                None => {
                    assert forall|j: int| 0 <= j < ns_post.len() implies (#[trigger] ns_post[j]).1
                        != sid by {
                        if j < ns_pre.len() {
                            assert(ns_post.subrange(0, ns_pre.len() as int)[j] == ns_post[j]);
                        }
                    }
                },
            }
        },
        PortType::Output => {
            let j = choose|j: int|
                0 <= j < ns_pre.len() && (#[trigger] ns_pre[j]) == (
                    Address(cell, PortHandle(k as usize)),
                    sid,
                );
            assert(ns_post.subrange(0, ns_pre.len() as int)[j] == ns_post[j]);
        },
    }
}

/// Resolves the flat slot of every port of one cell, in interface order:
/// wired inputs resolve through the wiring table and the namespace, unwired
/// inputs each get a fresh unshared slot, and outputs resolve to the slot
/// cached for the cell's own address, allocated on first sight.
fn resolve_cell_ports(
    gld: &mut GateLevelDescription,
    wires: &Vec<(Drain, Source)>,
    ns: &mut Vec<(Address, SignalID)>,
    cell: CellHandle,
    iface: &Vec<Port>,
) -> (mapping: Vec<SignalID>)
    requires
        ns_valid(old(ns)@, old(gld).desc@.len() as int),
    ensures
        allocs_only(old(gld).desc@, final(gld).desc@),
        ns_valid(final(ns)@, final(gld).desc@.len() as int),
        mapping@.len() == iface@.len(),
        forall|k: int|
            0 <= k < mapping@.len() ==> (#[trigger] mapping@[k]).0 < final(gld).desc@.len(),
        final(ns)@.len() >= old(ns)@.len(),
        final(ns)@.subrange(0, old(ns)@.len() as int) == old(ns)@,
        forall|j: int|
            old(ns)@.len() <= j < final(ns)@.len() ==> (#[trigger] final(ns)@[j]).1.0 >= old(
                gld,
            ).desc@.len(),
        ns_keys_distinct(old(ns)@) ==> ns_keys_distinct(final(ns)@),
        ns_values_distinct(old(ns)@) ==> ns_values_distinct(final(ns)@),
        forall|k: int|
            0 <= k < iface@.len() ==> #[trigger] port_resolved(
                wires@,
                final(ns)@,
                old(gld).desc@.len() as int,
                final(gld).desc@.len() as int,
                cell,
                k,
                iface@[k].port_type,
                mapping@[k],
            ),
{
    let ghost desc0 = gld.desc@;
    let ghost ns0 = ns@;
    proof {
        assert(desc0.subrange(0, desc0.len() as int) =~= desc0);
        assert(ns0.subrange(0, ns0.len() as int) =~= ns0);
    }
    let mut mapping: Vec<SignalID> = Vec::new();
    let mut pidx: usize = 0;
    while pidx < iface.len()
        invariant
            pidx <= iface@.len(),
            allocs_only(desc0, gld.desc@),
            ns_valid(ns@, gld.desc@.len() as int),
            mapping@.len() == pidx,
            forall|k: int|
                0 <= k < mapping@.len() ==> (#[trigger] mapping@[k]).0 < gld.desc@.len(),
            ns@.len() >= ns0.len(),
            ns@.subrange(0, ns0.len() as int) == ns0,
            forall|j: int|
                ns0.len() <= j < ns@.len() ==> (#[trigger] ns@[j]).1.0 >= desc0.len(),
            ns_keys_distinct(ns0) ==> ns_keys_distinct(ns@),
            ns_values_distinct(ns0) ==> ns_values_distinct(ns@),
            forall|k: int|
                0 <= k < pidx ==> #[trigger] port_resolved(
                    wires@,
                    ns@,
                    desc0.len() as int,
                    gld.desc@.len() as int,
                    cell,
                    k,
                    iface@[k].port_type,
                    mapping@[k],
                ),
        decreases iface@.len() - pidx,
    {
        let current_address = Address(cell, PortHandle(pidx));
        let ghost desc_pre = gld.desc@;
        let ghost ns_pre = ns@;
        let sid: SignalID = match iface[pidx].port_type {
            PortType::Input => {
                match wire_source(wires, Drain(current_address)) {
                    Some(source_address) => {
                        match ns_get(ns, source_address.0) {
                            Some(sig) => {
                                proof {
                                    assert(port_resolved(
                                        wires@,
                                        ns@,
                                        desc0.len() as int,
                                        gld.desc@.len() as int,
                                        cell,
                                        pidx as int,
                                        iface@[pidx as int].port_type,
                                        sig,
                                    ));
                                }
                                sig
                            },
                            None => {
                                let sig = gld.rz_alloc();
                                ns.push((source_address.0, sig));
                                proof {
                                    lemma_ns_push_keeps_shape(
                                        ns_pre,
                                        ns@,
                                        (source_address.0, sig),
                                        ns0,
                                        desc0.len() as int,
                                        desc_pre.len() as int,
                                    );
                                    assert(ns@[ns@.len() - 1] == (source_address.0, sig));
                                    assert(port_resolved(
                                        wires@,
                                        ns@,
                                        desc0.len() as int,
                                        gld.desc@.len() as int,
                                        cell,
                                        pidx as int,
                                        iface@[pidx as int].port_type,
                                        sig,
                                    ));
                                }
                                sig
                            },
                        }
                    },
                    None => {
                        // an unwired input: a fresh, unshared slot, so that
                        // separate unconnected inputs never alias
                        let sig = gld.rz_alloc();
                        proof {
                            assert forall|j: int|
                                0 <= j < ns@.len() implies (#[trigger] ns@[j]).1 != sig by {
                                assert(ns@[j].1.0 < desc_pre.len());
                            }
                            assert(port_resolved(
                                wires@,
                                ns@,
                                desc0.len() as int,
                                gld.desc@.len() as int,
                                cell,
                                pidx as int,
                                iface@[pidx as int].port_type,
                                sig,
                            ));
                        }
                        sig
                    },
                }
            },
            PortType::Output => {
                match ns_get(ns, current_address) {
                    Some(sig) => {
                        proof {
                            assert(port_resolved(
                                wires@,
                                ns@,
                                desc0.len() as int,
                                gld.desc@.len() as int,
                                cell,
                                pidx as int,
                                iface@[pidx as int].port_type,
                                sig,
                            ));
                        }
                        sig
                    },
                    None => {
                        let sig = gld.rz_alloc();
                        ns.push((current_address, sig));
                        proof {
                            lemma_ns_push_keeps_shape(
                                ns_pre,
                                ns@,
                                (current_address, sig),
                                ns0,
                                desc0.len() as int,
                                desc_pre.len() as int,
                            );
                            assert(ns@[ns@.len() - 1] == (current_address, sig));
                            assert(port_resolved(
                                wires@,
                                ns@,
                                desc0.len() as int,
                                gld.desc@.len() as int,
                                cell,
                                pidx as int,
                                iface@[pidx as int].port_type,
                                sig,
                            ));
                        }
                        sig
                    },
                }
            },
        };
        proof {
            if gld.desc@.len() > desc_pre.len() {
                assert(gld.desc@ == desc_pre.push(None));
                assert(gld.desc@.subrange(0, desc0.len() as int) =~= desc_pre.subrange(
                    0,
                    desc0.len() as int,
                ));
            }
        }
        let ghost mapping_pre = mapping@;
        mapping.push(sid);
        proof {
            assert(ns@.subrange(0, ns_pre.len() as int) =~= ns_pre);
            assert forall|k: int|
                0 <= k < pidx + 1 implies #[trigger] port_resolved(
                wires@,
                ns@,
                desc0.len() as int,
                gld.desc@.len() as int,
                cell,
                k,
                iface@[k].port_type,
                mapping@[k],
            ) by {
                if k < pidx {
                    assert(mapping@[k] == mapping_pre[k]);
                    lemma_port_resolved_persists(
                        wires@,
                        ns_pre,
                        ns@,
                        desc0.len() as int,
                        desc_pre.len() as int,
                        gld.desc@.len() as int,
                        cell,
                        k,
                        iface@[k].port_type,
                        mapping_pre[k],
                    );
                } else {
                    assert(mapping@[k] == sid);
                }
            }
        }
        pidx = pidx + 1;
    }
    mapping
}

/// Appending one namespace entry for a freshly allocated slot keeps every
/// shape property of the namespace: the prefix stands, the new slot lies at
/// or past the allocation frontier, and an address or slot that was bound
/// once stays bound once, provided the new entry's address was unbound and
/// its slot allocated just now.
proof fn lemma_ns_push_keeps_shape(
    pre: Seq<(Address, SignalID)>,
    post: Seq<(Address, SignalID)>,
    e: (Address, SignalID),
    ns0: Seq<(Address, SignalID)>,
    len0: int,
    len_pre: int,
)
    requires
        post == pre.push(e),
        ns0.len() <= pre.len(),
        pre.subrange(0, ns0.len() as int) == ns0,
        forall|j: int| ns0.len() <= j < pre.len() ==> (#[trigger] pre[j]).1.0 >= len0,
        forall|k: int| 0 <= k < pre.len() ==> (#[trigger] pre[k]).0 != e.0,
        ns_valid(pre, len_pre),
        len0 <= len_pre,
        e.1.0 == len_pre,
    ensures
        post.subrange(0, ns0.len() as int) == ns0,
        forall|j: int| ns0.len() <= j < post.len() ==> (#[trigger] post[j]).1.0 >= len0,
        ns_keys_distinct(pre) ==> ns_keys_distinct(post),
        ns_values_distinct(pre) ==> ns_values_distinct(post),
{
    assert(post.subrange(0, ns0.len() as int) =~= pre.subrange(0, ns0.len() as int));
    if ns_keys_distinct(pre) {
        assert forall|i: int, j: int| 0 <= i < j < post.len() implies (#[trigger] post[i]).0 != (
        #[trigger] post[j]).0 by {
            if j < pre.len() {
            } else {
                assert(post[j] == e);
                assert(post[i] == pre[i]);
            }
        }
    }
    if ns_values_distinct(pre) {
        assert forall|i: int, j: int| 0 <= i < j < post.len() implies (#[trigger] post[i]).1 != (
        #[trigger] post[j]).1 by {
            if j < pre.len() {
            } else {
                assert(post[j] == e);
                assert(post[i] == pre[i]);
                assert(pre[i].1.0 < len_pre);
            }
        }
    }
}

/// Whether `op` is the operation a primitive `p` lowers to at the fixed
/// positional slots of `mapping`: the matching gate over the operand slots
/// at positions one and two, or an I/O operation whose handler behaves
/// exactly as the cell's handler at every tick.
pub open spec fn op_matches_prim(op: Operation, p: PrimitiveType, mapping: Seq<SignalID>) -> bool {
    match (p, op) {
        (PrimitiveType::Not, Operation::Not(a)) => a == mapping[1],
        (PrimitiveType::And, Operation::And(a, b)) => a == mapping[1] && b == mapping[2],
        (PrimitiveType::Nand, Operation::Nand(a, b)) => a == mapping[1] && b == mapping[2],
        (PrimitiveType::Or, Operation::Or(a, b)) => a == mapping[1] && b == mapping[2],
        (PrimitiveType::Nor, Operation::Nor(a, b)) => a == mapping[1] && b == mapping[2],
        (PrimitiveType::Xor, Operation::Xor(a, b)) => a == mapping[1] && b == mapping[2],
        (PrimitiveType::Xnor, Operation::Xnor(a, b)) => a == mapping[1] && b == mapping[2],
        (PrimitiveType::Input(h), Operation::Input(h2)) => forall|t: int|
            h2.wave.spec_at(t) == h.wave.spec_at(t),
        (PrimitiveType::Output(h), Operation::Output(src, h2)) => src == mapping[1] && forall|
            t: int,
        |
            h2.check.spec_expected(t) == h.check.spec_expected(t),
        (_, _) => false,
    }
}

/// Emits the operation of one primitive cell at the fixed positional slots
/// of its resolved interface: position zero is the result location, the
/// positions after it the operands.
fn emit_prim(
    gld: &mut GateLevelDescription,
    p: &PrimitiveType,
    mapping: &Vec<SignalID>,
) -> (r: Result<(), NetlistLowerError>)
    requires
        forall|k: int|
            0 <= k < mapping@.len() ==> (#[trigger] mapping@[k]).0 < old(gld).desc@.len(),
    ensures
        final(gld).desc@.len() == old(gld).desc@.len(),
        grows_preserving(old(gld).desc@, final(gld).desc@),
        gld_closed(old(gld).desc@) ==> gld_closed(final(gld).desc@),
        r is Ok ==> assigned_count(final(gld).desc@) == assigned_count(old(gld).desc@) + 1,
        r is Err ==> final(gld).desc@ == old(gld).desc@,
        r is Err ==> r == Result::<(), NetlistLowerError>::Err(
            NetlistLowerError::ChildPortNotAllocated,
        ) || r == Result::<(), NetlistLowerError>::Err(NetlistLowerError::ConflictingDrive),
        mapping@.len() == p.arity() && old(gld).desc@[mapping@[0].0 as int] is None ==> r is Ok,
        r is Ok ==> forall|v: int|
            0 <= v < final(gld).desc@.len() && v != mapping@[0].0 ==> final(gld).desc@[v] == old(
                gld,
            ).desc@[v],
        r is Ok ==> mapping@[0].0 < final(gld).desc@.len() && (final(gld).desc@[mapping@[0].0
            as int] matches Some(op) && op_matches_prim(op, *p, mapping@)),
{
    let ghost pre = gld.desc@;
    let needed: usize = match p {
        PrimitiveType::Input(_) => 1,
        PrimitiveType::Not => 2,
        PrimitiveType::Output(_) => 2,
        _ => 3,
    };
    if mapping.len() < needed {
        return Err(NetlistLowerError::ChildPortNotAllocated);
    }
    let loc = mapping[0];
    let outcome: Result<(), crate::builder::BuilderError>;
    let ghost mut emitted_op: Operation = Operation::Not(SignalID(0));
    match p {
        PrimitiveType::Not => {
            outcome = gld.mk_not(loc, mapping[1]);
            proof {
                emitted_op = Operation::Not(mapping@[1]);
            }
        },
        PrimitiveType::And => {
            outcome = gld.mk_and(loc, mapping[1], mapping[2]);
            proof {
                emitted_op = Operation::And(mapping@[1], mapping@[2]);
            }
        },
        PrimitiveType::Nand => {
            outcome = gld.mk_nand(loc, mapping[1], mapping[2]);
            proof {
                emitted_op = Operation::Nand(mapping@[1], mapping@[2]);
            }
        },
        PrimitiveType::Or => {
            outcome = gld.mk_or(loc, mapping[1], mapping[2]);
            proof {
                emitted_op = Operation::Or(mapping@[1], mapping@[2]);
            }
        },
        PrimitiveType::Nor => {
            outcome = gld.mk_nor(loc, mapping[1], mapping[2]);
            proof {
                emitted_op = Operation::Nor(mapping@[1], mapping@[2]);
            }
        },
        PrimitiveType::Xor => {
            outcome = gld.mk_xor(loc, mapping[1], mapping[2]);
            proof {
                emitted_op = Operation::Xor(mapping@[1], mapping@[2]);
            }
        },
        PrimitiveType::Xnor => {
            outcome = gld.mk_xnor(loc, mapping[1], mapping[2]);
            proof {
                emitted_op = Operation::Xnor(mapping@[1], mapping@[2]);
            }
        },
        PrimitiveType::Input(h) => {
            let handler = h.clone();
            proof {
                emitted_op = Operation::Input(handler);
            }
            outcome = gld.mk_input(loc, handler);
        },
        PrimitiveType::Output(h) => {
            let handler = h.clone();
            proof {
                emitted_op = Operation::Output(mapping@[1], handler);
            }
            outcome = gld.mk_output(loc, mapping[1], handler);
        },
    }
    match outcome {
        Ok(()) => {
            proof {
                lemma_assigned_count_assign(pre, loc.0 as int, emitted_op);
                if gld_closed(pre) {
                    lemma_assign_closed(pre, gld.desc@, loc, emitted_op);
                }
            }
            Ok(())
        },
        Err(_) => Err(NetlistLowerError::ConflictingDrive),
    }
}

/// Every module link of `cells` points into the design, at a module that
/// itself instantiates nothing: the hierarchy below these cells is exactly
/// one level deep.
pub open spec fn links_are_flat(modules: Seq<Module>, cells: Seq<Cell>) -> bool {
    forall|k: int|
        0 <= k < cells.len() ==> ((#[trigger] cells[k]) matches Cell::ModuleLink(h) ==> h.0
            < modules.len() && cells_flat(modules[h.0 as int].cells@))
}

/// The primitive count of `cells` with every module link expanded once: its
/// own primitives, plus the referenced module's primitive count once per
/// link cell — each instantiation contributes separately.
pub open spec fn expanded_prim_count(modules: Seq<Module>, cells: Seq<Cell>) -> nat
    decreases cells.len(),
{
    if cells.len() == 0 {
        0
    } else {
        expanded_prim_count(modules, cells.drop_last()) + match cells.last() {
            Cell::Primitive(_) => 1nat,
            Cell::ModuleLink(h) => if h.0 < modules.len() {
                prim_count(modules[h.0 as int].cells@)
            } else {
                0nat
            },
            Cell::InputProxy(_) => 0nat,
        }
    }
}

/// Whether `v` is one of the flat slots listed in `palloc`.
pub open spec fn slot_from_ports(palloc: Seq<SignalID>, v: int) -> bool {
    exists|p: int| 0 <= p < palloc.len() && (#[trigger] palloc[p]).0 == v
}

/// Every slot that was empty before and holds an operation after lies among
/// the supplied port allocations. Slots at or past the caller's frontier are
/// freshly allocated, so two instantiations given disjoint port slots write
/// disjoint slot sets: nothing aliases between them.
pub open spec fn new_assigns_from_ports(
    pre: Seq<Option<Operation>>,
    post: Seq<Option<Operation>>,
    palloc: Seq<SignalID>,
) -> bool {
    forall|v: int|
        0 <= v < pre.len() && pre[v] is None && (#[trigger] post[v]) is Some ==> slot_from_ports(
            palloc,
            v,
        )
}

/// Every slot the namespace mentions is either at or past the caller's
/// allocation frontier or one of the supplied port allocations.
spec fn ns_slots_accounted(ns: Seq<(Address, SignalID)>, palloc: Seq<SignalID>, frontier: int) -> bool {
    forall|k: int|
        0 <= k < ns.len() ==> (#[trigger] ns[k]).1.0 >= frontier || slot_from_ports(
            palloc,
            ns[k].1.0 as int,
        )
}

/// Growing the namespace with entries at or past the allocation frontier
/// keeps every slot it mentions accounted for.
proof fn lemma_ns_accounted_after_resolve(
    ns_pre: Seq<(Address, SignalID)>,
    ns_post: Seq<(Address, SignalID)>,
    palloc: Seq<SignalID>,
    frontier: int,
    len_iter: int,
)
    requires
        ns_slots_accounted(ns_pre, palloc, frontier),
        frontier <= len_iter,
        ns_post.len() >= ns_pre.len(),
        ns_post.subrange(0, ns_pre.len() as int) == ns_pre,
        forall|j: int| ns_pre.len() <= j < ns_post.len() ==> (#[trigger] ns_post[j]).1.0 >= len_iter,
    ensures
        ns_slots_accounted(ns_post, palloc, frontier),
{
    assert forall|k: int|
        0 <= k < ns_post.len() implies (#[trigger] ns_post[k]).1.0 >= frontier || slot_from_ports(
        palloc,
        ns_post[k].1.0 as int,
    ) by {
        if k < ns_pre.len() {
            assert(ns_post.subrange(0, ns_pre.len() as int)[k] == ns_post[k]);
        }
    }
}

/// The inputs on which lowering a module that instantiates nothing is owed
/// success: there are cells, every port has a pre-allocated, still-empty
/// flat slot of its own, and no two ports share a slot or a local address.
pub open spec fn flat_lower_ready(
    module: Module,
    pre: Seq<Option<Operation>>,
    palloc: Seq<SignalID>,
) -> bool {
    &&& module.cells@.len() > 0
    &&& cells_flat(module.cells@)
    &&& palloc.len() >= module.portlist@.len()
    &&& forall|i: int|
        0 <= i < palloc.len() ==> (#[trigger] palloc[i]).0 < pre.len() && pre[palloc[i].0 as int]
            is None
    &&& forall|i: int, j: int|
        0 <= i < j < palloc.len() ==> (#[trigger] palloc[i]) != (#[trigger] palloc[j])
    &&& forall|i: int, j: int|
        0 <= i < j < module.portlist@.len() ==> (#[trigger] module.portlist@[i]).local_location
            != (#[trigger] module.portlist@[j]).local_location
}

/// Every namespace entry that is not the output address of an
/// already-emitted primitive still points at an empty slot.
pub open spec fn ns_fresh_targets(
    ns: Seq<(Address, SignalID)>,
    desc: Seq<Option<Operation>>,
    cells: Seq<Cell>,
    cidx: int,
) -> bool {
    forall|k: int|
        0 <= k < ns.len() ==> {
            let a = (#[trigger] ns[k]).0;
            (a.1.0 == 0 && a.0.0 < cidx && a.0.0 < cells.len() && cells[a.0.0 as int]
                is Primitive) || desc[ns[k].1.0 as int] is None
        }
}

/// A target allowed to be full for an earlier cursor is still allowed for a
/// later one.
proof fn lemma_fresh_targets_mono(
    ns: Seq<(Address, SignalID)>,
    desc: Seq<Option<Operation>>,
    cells: Seq<Cell>,
    c1: int,
    c2: int,
)
    requires
        c1 <= c2,
        ns_fresh_targets(ns, desc, cells, c1),
    ensures
        ns_fresh_targets(ns, desc, cells, c2),
{
    assert forall|k: int|
        0 <= k < ns.len() implies {
        let a = (#[trigger] ns[k]).0;
        (a.1.0 == 0 && a.0.0 < c2 && a.0.0 < cells.len() && cells[a.0.0 as int] is Primitive)
            || desc[ns[k].1.0 as int] is None
    } by {
        let a = ns[k].0;
        assert((a.1.0 == 0 && a.0.0 < c1 && a.0.0 < cells.len() && cells[a.0.0 as int]
            is Primitive) || desc[ns[k].1.0 as int] is None);
    }
}

/// Fresh allocations leave every still-empty namespace target empty, and
/// every appended entry points at one of the fresh, empty slots.
proof fn lemma_fresh_targets_after_allocs(
    ns_pre: Seq<(Address, SignalID)>,
    ns_post: Seq<(Address, SignalID)>,
    desc_pre: Seq<Option<Operation>>,
    desc_post: Seq<Option<Operation>>,
    cells: Seq<Cell>,
    cidx: int,
)
    requires
        ns_fresh_targets(ns_pre, desc_pre, cells, cidx),
        ns_valid(ns_pre, desc_pre.len() as int),
        ns_valid(ns_post, desc_post.len() as int),
        allocs_only(desc_pre, desc_post),
        ns_post.len() >= ns_pre.len(),
        ns_post.subrange(0, ns_pre.len() as int) == ns_pre,
        forall|j: int|
            ns_pre.len() <= j < ns_post.len() ==> (#[trigger] ns_post[j]).1.0 >= desc_pre.len(),
    ensures
        ns_fresh_targets(ns_post, desc_post, cells, cidx),
{
    assert forall|k: int|
        0 <= k < ns_post.len() implies {
        let a = (#[trigger] ns_post[k]).0;
        (a.1.0 == 0 && a.0.0 < cidx && a.0.0 < cells.len() && cells[a.0.0 as int] is Primitive)
            || desc_post[ns_post[k].1.0 as int] is None
    } by {
        if k < ns_pre.len() {
            assert(ns_post.subrange(0, ns_pre.len() as int)[k] == ns_post[k]);
            assert(ns_post[k] == ns_pre[k]);
            let a = ns_pre[k].0;
            if !(a.1.0 == 0 && a.0.0 < cidx && a.0.0 < cells.len() && cells[a.0.0 as int]
                is Primitive) {
                assert(desc_pre[ns_pre[k].1.0 as int] is None);
                assert(desc_post.subrange(0, desc_pre.len() as int)[ns_pre[k].1.0 as int]
                    == desc_post[ns_pre[k].1.0 as int]);
            }
        } else {
            assert(ns_post[k].1.0 >= desc_pre.len());
        }
    }
}

/// Emitting the primitive of cell `cidx` at its own cached output slot
/// keeps every other namespace target empty, because no two entries share a
/// slot.
proof fn lemma_fresh_targets_after_assign(
    ns: Seq<(Address, SignalID)>,
    desc_pre: Seq<Option<Operation>>,
    desc_post: Seq<Option<Operation>>,
    cells: Seq<Cell>,
    cidx: int,
    kw: int,
)
    requires
        ns_fresh_targets(ns, desc_pre, cells, cidx),
        ns_values_distinct(ns),
        0 <= kw < ns.len(),
        ns[kw].0.0.0 == cidx,
        ns[kw].0.1.0 == 0,
        0 <= cidx < cells.len(),
        cells[cidx] is Primitive,
        desc_post.len() == desc_pre.len(),
        forall|v: int|
            0 <= v < desc_post.len() && v != ns[kw].1.0 ==> desc_post[v] == desc_pre[v],
        ns_valid(ns, desc_pre.len() as int),
    ensures
        ns_fresh_targets(ns, desc_post, cells, cidx + 1),
{
    assert forall|k: int|
        0 <= k < ns.len() implies {
        let a = (#[trigger] ns[k]).0;
        (a.1.0 == 0 && a.0.0 < cidx + 1 && a.0.0 < cells.len() && cells[a.0.0 as int]
            is Primitive) || desc_post[ns[k].1.0 as int] is None
    } by {
        if k != kw {
            let a = ns[k].0;
            if !(a.1.0 == 0 && a.0.0 < cidx + 1 && a.0.0 < cells.len() && cells[a.0.0 as int]
                is Primitive) {
                assert(ns[k].1 != ns[kw].1);
                assert(desc_pre[ns[k].1.0 as int] is None);
            }
        }
    }
}

impl Netlist {
    /// Flattens the module at `module_handle` into a runnable circuit with
    /// the given input sampling ratio, pre-allocating one fresh slot per
    /// port of the module since there is no parent to supply them.
    pub fn as_circuit(&self, module_handle: ModuleHandle, input_tick_ratio: usize) -> (r: Result<
        Circuit,
        NetlistLowerError,
    >)
        requires
            input_tick_ratio >= 1,
        ensures
            module_handle.0 >= self.modules@.len() ==> r == Result::<
                Circuit,
                NetlistLowerError,
            >::Err(NetlistLowerError::ModuleHandleDNE),
            r matches Ok(c) ==> c.wf() && c.tick_count() == 0 && c.tpi() == input_tick_ratio
                && forall|i: int| 0 <= i < c.sigs().len() ==> c.sigs()[i] == Signal::Undefined,
            module_handle.0 < self.modules@.len() && ({
                let m = self.modules@[module_handle.0 as int];
                m.cells@.len() > 0 && cells_flat(m.cells@) && forall|i: int, j: int|
                    0 <= i < j < m.portlist@.len() ==> (
                    #[trigger] m.portlist@[i]).local_location != (
                    #[trigger] m.portlist@[j]).local_location
            }) ==> r is Ok,
            r matches Ok(c) ==> module_handle.0 < self.modules@.len() && exists|
                staged: Seq<Option<Operation>>,
            |
                {
                    let m = self.modules@[module_handle.0 as int];
                    &&& #[trigger] finalizes(staged, c.desc())
                    &&& cells_flat(m.cells@) ==> assigned_count(staged) == prim_count(m.cells@)
                    &&& links_are_flat(self.modules@, m.cells@) ==> assigned_count(staged)
                        == expanded_prim_count(self.modules@, m.cells@)
                },
            !(r matches Err(e) && e == NetlistLowerError::PortNotAllocated),
            module_handle.0 < self.modules@.len() && self.modules@[module_handle.0
                as int].cells@.len() == 0 ==> r == Result::<Circuit, NetlistLowerError>::Err(
                NetlistLowerError::EmptyModule,
            ),
    {
        if module_handle.0 >= self.modules.len() {
            return Err(NetlistLowerError::ModuleHandleDNE);
        }
        let top = &self.modules[module_handle.0];

        let mut gld = GateLevelDescription::new();
        let mut port_allocations: Vec<SignalID> = Vec::new();
        let mut idx: usize = 0;
        while idx < top.portlist.len()
            invariant
                gld_closed(gld.desc@),
                idx <= top.portlist@.len(),
                port_allocations@.len() == idx,
                gld.desc@.len() == idx,
                forall|k: int|
                    0 <= k < idx ==> (#[trigger] port_allocations@[k]) == SignalID(k as usize),
                forall|k: int| 0 <= k < idx ==> (#[trigger] gld.desc@[k]) is None,
            decreases top.portlist@.len() - idx,
        {
            let sid = gld.rz_alloc();
            port_allocations.push(sid);
            idx = idx + 1;
        }

        let ghost pre_lower = gld.desc@;
        match self.lower(&mut gld, top, port_allocations) {
            Ok(()) => {},
            Err(e) => {
                return Err(e);
            },
        }

        let ghost staged = gld.desc@;
        proof {
            assert(allocs_only(Seq::<Option<Operation>>::empty(), pre_lower)) by {
                assert(pre_lower.subrange(0, 0) =~= Seq::<Option<Operation>>::empty());
            }
            lemma_assigned_count_allocs(Seq::<Option<Operation>>::empty(), pre_lower);
        }
        let desc = gld.into_desc();
        proof {
            assert forall|i: int| 0 <= i < desc@.len() implies (#[trigger] desc@[i]).in_bounds(
                desc@.len() as int,
            ) by {
                assert(staged[i] matches Some(op) ==> op.in_bounds(staged.len() as int));
            }
        }
        let circuit = Circuit::new(desc, input_tick_ratio);
        proof {
            assert(finalizes(staged, circuit.desc()));
        }
        Ok(circuit)
    }

    /// Builds an instance of `module` into the builder, with `port_allocations`
    /// supplying one pre-allocated flat slot per entry of the module's port
    /// list.
    ///
    /// The builder only grows: every slot that already held an operation
    /// keeps it, a reference-closed builder stays reference-closed, a
    /// module with no cells is refused as `EmptyModule`, and proxy cells
    /// build nothing and allocate nothing. For a module whose
    /// cells instantiate no sub-modules, success adds exactly one operation
    /// per primitive cell, and for one whose links all lead to such modules,
    /// one per primitive of the expansion: each instantiation contributes
    /// the instantiated module's count separately. The instantiation chain
    /// may descend through at most as many modules as the design holds; a
    /// deeper chain proves the design cyclic and is refused as
    /// `RecursionLimit`.
    pub fn lower(
        &self,
        gld: &mut GateLevelDescription,
        module: &Module,
        port_allocations: Vec<SignalID>,
    ) -> (r: Result<(), NetlistLowerError>)
        requires
            forall|k: int|
                0 <= k < port_allocations@.len() ==> (#[trigger] port_allocations@[k]).0 < old(
                    gld,
                ).desc@.len(),
        ensures
            grows_preserving(old(gld).desc@, final(gld).desc@),
            gld_closed(old(gld).desc@) ==> gld_closed(final(gld).desc@),
            module.cells@.len() == 0 ==> r == Result::<(), NetlistLowerError>::Err(
                NetlistLowerError::EmptyModule,
            ),
            r is Ok && cells_flat(module.cells@) ==> assigned_count(final(gld).desc@)
                == assigned_count(old(gld).desc@) + prim_count(module.cells@),
            flat_lower_ready(*module, old(gld).desc@, port_allocations@) ==> r is Ok,
            r == Result::<(), NetlistLowerError>::Err(NetlistLowerError::PortNotAllocated)
                <==> module.cells@.len() > 0 && port_allocations@.len()
                < module.portlist@.len(),
            r is Ok && links_are_flat(self.modules@, module.cells@) ==> assigned_count(
                final(gld).desc@,
            ) == assigned_count(old(gld).desc@) + expanded_prim_count(
                self.modules@,
                module.cells@,
            ),
            (forall|k: int| 0 <= k < module.cells@.len() ==> (#[trigger] module.cells@[k])
                is InputProxy) ==> final(gld).desc@ == old(gld).desc@,
            new_assigns_from_ports(old(gld).desc@, final(gld).desc@, port_allocations@),
    {
        self.lower_rec(gld, module, port_allocations, self.modules.len())
    }

    /// The recursive worker behind [`Netlist::lower`], with the remaining
    /// instantiation depth made explicit.
    fn lower_rec(
        &self,
        gld: &mut GateLevelDescription,
        module: &Module,
        port_allocations: Vec<SignalID>,
        depth: usize,
    ) -> (r: Result<(), NetlistLowerError>)
        requires
            forall|k: int|
                0 <= k < port_allocations@.len() ==> (#[trigger] port_allocations@[k]).0 < old(
                    gld,
                ).desc@.len(),
        ensures
            grows_preserving(old(gld).desc@, final(gld).desc@),
            gld_closed(old(gld).desc@) ==> gld_closed(final(gld).desc@),
            module.cells@.len() == 0 ==> r == Result::<(), NetlistLowerError>::Err(
                NetlistLowerError::EmptyModule,
            ),
            r is Ok && cells_flat(module.cells@) ==> assigned_count(final(gld).desc@)
                == assigned_count(old(gld).desc@) + prim_count(module.cells@),
            flat_lower_ready(*module, old(gld).desc@, port_allocations@) ==> r is Ok,
            r == Result::<(), NetlistLowerError>::Err(NetlistLowerError::PortNotAllocated)
                <==> module.cells@.len() > 0 && port_allocations@.len()
                < module.portlist@.len(),
            r is Ok && links_are_flat(self.modules@, module.cells@) ==> assigned_count(
                final(gld).desc@,
            ) == assigned_count(old(gld).desc@) + expanded_prim_count(
                self.modules@,
                module.cells@,
            ),
            (forall|k: int| 0 <= k < module.cells@.len() ==> (#[trigger] module.cells@[k])
                is InputProxy) ==> final(gld).desc@ == old(gld).desc@,
            new_assigns_from_ports(old(gld).desc@, final(gld).desc@, port_allocations@),
        decreases depth,
    {
        let ghost desc0 = gld.desc@;
        let ghost cells0 = module.cells@;
        let ghost ready = flat_lower_ready(*module, desc0, port_allocations@);

        // a module which is empty cannot be instantiated
        if module.cells.len() == 0 {
            return Err(NetlistLowerError::EmptyModule);
        }

        // seed the namespace with the allocations the parent supplied for
        // this module's ports
        let mut name_space: Vec<(Address, SignalID)> = Vec::new();
        let mut pidx: usize = 0;
        while pidx < module.portlist.len()
            invariant
                ns_valid(name_space@, gld.desc@.len() as int),
                gld.desc@ == desc0,
                desc0 == old(gld).desc@,
                cells0 == module.cells@,
                cells0.len() != 0,
                ready == flat_lower_ready(*module, desc0, port_allocations@),
                pidx <= module.portlist@.len(),
                pidx <= port_allocations@.len(),
                name_space@.len() == pidx,
                forall|k: int|
                    0 <= k < pidx ==> (#[trigger] name_space@[k]) == (
                        module.portlist@[k].local_location,
                        port_allocations@[k],
                    ),
                forall|k: int|
                    0 <= k < port_allocations@.len() ==> (#[trigger] port_allocations@[k]).0
                        < desc0.len(),
            decreases module.portlist@.len() - pidx,
        {
            if pidx >= port_allocations.len() {
                return Err(NetlistLowerError::PortNotAllocated);
            }
            name_space.push((module.portlist[pidx].local_location, port_allocations[pidx]));
            pidx = pidx + 1;
        }

        let ghost count0 = assigned_count(desc0);
        proof {
            assert(cells0.subrange(0, 0) =~= Seq::<Cell>::empty());
            if ready {
                assert forall|i: int, j: int|
                    0 <= i < j < name_space@.len() implies (#[trigger] name_space@[i]).0 != (
                #[trigger] name_space@[j]).0 by {
                    assert(name_space@[i] == (
                        module.portlist@[i].local_location,
                        port_allocations@[i],
                    ));
                    assert(name_space@[j] == (
                        module.portlist@[j].local_location,
                        port_allocations@[j],
                    ));
                }
                assert forall|i: int, j: int|
                    0 <= i < j < name_space@.len() implies (#[trigger] name_space@[i]).1 != (
                #[trigger] name_space@[j]).1 by {
                    assert(name_space@[i] == (
                        module.portlist@[i].local_location,
                        port_allocations@[i],
                    ));
                    assert(name_space@[j] == (
                        module.portlist@[j].local_location,
                        port_allocations@[j],
                    ));
                }
                assert forall|k: int|
                    0 <= k < name_space@.len() implies desc0[(#[trigger] name_space@[k]).1.0
                    as int] is None by {
                    assert(name_space@[k] == (
                        module.portlist@[k].local_location,
                        port_allocations@[k],
                    ));
                }
            }
            assert forall|k: int|
                0 <= k < name_space@.len() implies (#[trigger] name_space@[k]).1.0
                >= desc0.len() || slot_from_ports(
                port_allocations@,
                name_space@[k].1.0 as int,
            ) by {
                assert(name_space@[k] == (
                    module.portlist@[k].local_location,
                    port_allocations@[k],
                ));
            }
        }

        let mut cidx: usize = 0;
        while cidx < module.cells.len()
            invariant
                cidx <= cells0.len(),
                module.cells@ == cells0,
                cells0.len() != 0,
                desc0 == old(gld).desc@,
                port_allocations@.len() >= module.portlist@.len(),
                ready == flat_lower_ready(*module, desc0, port_allocations@),
                grows_preserving(desc0, gld.desc@),
                gld_closed(desc0) ==> gld_closed(gld.desc@),
                ns_valid(name_space@, gld.desc@.len() as int),
                cells_flat(cells0) ==> assigned_count(gld.desc@) == count0 + prim_count(
                    cells0.subrange(0, cidx as int),
                ),
                links_are_flat(self.modules@, cells0) ==> assigned_count(gld.desc@) == count0
                    + expanded_prim_count(self.modules@, cells0.subrange(0, cidx as int)),
                (forall|k: int| 0 <= k < cells0.len() ==> (#[trigger] cells0[k]) is InputProxy)
                    ==> gld.desc@ == desc0,
                ns_slots_accounted(name_space@, port_allocations@, desc0.len() as int),
                new_assigns_from_ports(desc0, gld.desc@, port_allocations@),
                ready ==> ns_keys_distinct(name_space@),
                ready ==> ns_values_distinct(name_space@),
                ready ==> ns_fresh_targets(name_space@, gld.desc@, cells0, cidx as int),
            decreases cells0.len() - cidx,
        {
            let cell_handle = CellHandle(cidx);
            let ghost desc_iter = gld.desc@;
            let ghost ns_iter = name_space@;

            match &module.cells[cidx] {
                Cell::InputProxy(_) => {
                    // nothing to build and nothing to allocate: the proxy
                    // exists so that local wires can reference the module's
                    // own port, which the parent has seeded into the
                    // namespace up front
                    proof {
                        if cells_flat(cells0) || links_are_flat(self.modules@, cells0) {
                            assert(cells0.subrange(0, cidx as int + 1).drop_last() =~= cells0
                                .subrange(0, cidx as int));
                            assert(cells0.subrange(0, cidx as int + 1).last() == cells0[
                                cidx as int]);
                        }
                        if ready {
                            lemma_fresh_targets_mono(
                                name_space@,
                                gld.desc@,
                                cells0,
                                cidx as int,
                                cidx as int + 1,
                            );
                        }
                    }
                },
                Cell::Primitive(p) => {
                    let iface = p.interface();
                    let mapping = resolve_cell_ports(
                        gld,
                        &module.wires,
                        &mut name_space,
                        cell_handle,
                        &iface,
                    );
                    let ghost desc_mid = gld.desc@;
                    proof {
                        assert(port_resolved(
                            module.wires@,
                            name_space@,
                            desc_iter.len() as int,
                            desc_mid.len() as int,
                            cell_handle,
                            0,
                            iface@[0].port_type,
                            mapping@[0],
                        ));
                        assert(exists|j: int|
                            0 <= j < name_space@.len() && (#[trigger] name_space@[j]) == (
                                Address(cell_handle, PortHandle(0)),
                                mapping@[0],
                            ));
                        lemma_ns_accounted_after_resolve(
                            ns_iter,
                            name_space@,
                            port_allocations@,
                            desc0.len() as int,
                            desc_iter.len() as int,
                        );
                        assert(new_assigns_from_ports(desc0, desc_mid, port_allocations@)) by {
                            assert forall|v: int|
                                0 <= v < desc0.len() && desc0[v] is None && (
                                #[trigger] desc_mid[v]) is Some implies slot_from_ports(
                                port_allocations@,
                                v,
                            ) by {
                                assert(desc_mid.subrange(0, desc_iter.len() as int)[v]
                                    == desc_mid[v]);
                            }
                        }
                        if ready {
                            lemma_fresh_targets_after_allocs(
                                ns_iter,
                                name_space@,
                                desc_iter,
                                desc_mid,
                                cells0,
                                cidx as int,
                            );
                            let kw = choose|k: int|
                                0 <= k < name_space@.len() && (#[trigger] name_space@[k]) == (
                                    Address(cell_handle, PortHandle(0)),
                                    mapping@[0],
                                );
                            assert(desc_mid[mapping@[0].0 as int] is None);
                        }
                    }
                    let emitted = emit_prim(gld, p, &mapping);
                    proof {
                        lemma_allocs_grows(desc_iter, desc_mid);
                        lemma_grows_trans(desc0, desc_iter, desc_mid);
                        lemma_grows_trans(desc0, desc_mid, gld.desc@);
                        if gld_closed(desc0) {
                            lemma_allocs_closed(desc_iter, desc_mid);
                        }
                    }
                    match emitted {
                        Ok(()) => {
                            proof {
                                if cells_flat(cells0) || links_are_flat(
                                    self.modules@,
                                    cells0,
                                ) {
                                    lemma_assigned_count_allocs(desc_iter, desc_mid);
                                    assert(cells0.subrange(0, cidx as int + 1).drop_last()
                                        =~= cells0.subrange(0, cidx as int));
                                    assert(cells0.subrange(0, cidx as int + 1).last() == cells0[
                                        cidx as int]);
                                }
                                if ready {
                                    let kw = choose|k: int|
                                        0 <= k < name_space@.len() && (
                                        #[trigger] name_space@[k]) == (
                                            Address(cell_handle, PortHandle(0)),
                                            mapping@[0],
                                        );
                                    lemma_fresh_targets_after_assign(
                                        name_space@,
                                        desc_mid,
                                        gld.desc@,
                                        cells0,
                                        cidx as int,
                                        kw,
                                    );
                                }
                                assert forall|v: int|
                                    0 <= v < desc0.len() && desc0[v] is None && (
                                    #[trigger] gld.desc@[v]) is Some implies slot_from_ports(
                                    port_allocations@,
                                    v,
                                ) by {
                                    if !(desc_mid[v] is Some) {
                                        assert(v == mapping@[0].0);
                                        let j = choose|j: int|
                                            0 <= j < name_space@.len() && (
                                            #[trigger] name_space@[j]) == (
                                                Address(cell_handle, PortHandle(0)),
                                                mapping@[0],
                                            );
                                        assert(name_space@[j].1.0 >= desc0.len()
                                            || slot_from_ports(
                                            port_allocations@,
                                            name_space@[j].1.0 as int,
                                        ));
                                    }
                                }
                            }
                        },
                        Err(e) => {
                            return Err(e);
                        },
                    }
                },
                Cell::ModuleLink(link) => {
                    proof {
                        if ready {
                            assert(!(cells0[cidx as int] is ModuleLink));
                        }
                    }
                    if link.0 >= self.modules.len() {
                        return Err(NetlistLowerError::ModuleHandleDNE);
                    }
                    let child = &self.modules[link.0];
                    let mapping = resolve_cell_ports(
                        gld,
                        &module.wires,
                        &mut name_space,
                        cell_handle,
                        &child.portlist,
                    );
                    let ghost desc_mid = gld.desc@;
                    proof {
                        lemma_allocs_grows(desc_iter, desc_mid);
                        lemma_grows_trans(desc0, desc_iter, desc_mid);
                        if gld_closed(desc0) {
                            lemma_allocs_closed(desc_iter, desc_mid);
                        }
                        lemma_ns_accounted_after_resolve(
                            ns_iter,
                            name_space@,
                            port_allocations@,
                            desc0.len() as int,
                            desc_iter.len() as int,
                        );
                        assert(new_assigns_from_ports(desc0, desc_mid, port_allocations@)) by {
                            assert forall|v: int|
                                0 <= v < desc0.len() && desc0[v] is None && (
                                #[trigger] desc_mid[v]) is Some implies slot_from_ports(
                                port_allocations@,
                                v,
                            ) by {
                                assert(desc_mid.subrange(0, desc_iter.len() as int)[v]
                                    == desc_mid[v]);
                            }
                        }
                    }
                    if depth == 0 {
                        // only a cyclic design can nest deeper than the
                        // design has modules
                        return Err(NetlistLowerError::RecursionLimit);
                    }
                    let lowered = self.lower_rec(gld, child, mapping, depth - 1);
                    proof {
                        lemma_grows_trans(desc0, desc_mid, gld.desc@);
                        assert forall|k: int|
                            0 <= k < name_space@.len() implies (#[trigger] name_space@[k]).1.0
                            < gld.desc@.len() as int by {
                            assert(name_space@[k].1.0 < desc_mid.len());
                        }
                        assert forall|v: int|
                            0 <= v < desc0.len() && desc0[v] is None && (
                            #[trigger] gld.desc@[v]) is Some implies slot_from_ports(
                            port_allocations@,
                            v,
                        ) by {
                            if !(desc_mid[v] is Some) {
                                assert(slot_from_ports(mapping@, v));
                                let p = choose|p: int|
                                    0 <= p < mapping@.len() && (#[trigger] mapping@[p]).0 == v;
                                assert(port_resolved(
                                    module.wires@,
                                    name_space@,
                                    desc_iter.len() as int,
                                    desc_mid.len() as int,
                                    cell_handle,
                                    p,
                                    child.portlist@[p].port_type,
                                    mapping@[p],
                                ));
                                let pt = child.portlist@[p].port_type;
                                if pt is Input {
                                    match wire_lookup(
                                        module.wires@,
                                        Drain(Address(cell_handle, PortHandle(p as usize))),
                                    ) {
                                        Some(src) => {
                                            let j = choose|j: int|
                                                0 <= j < name_space@.len() && (
                                                #[trigger] name_space@[j]) == (
                                                    src.0,
                                                    mapping@[p],
                                                );
                                            assert(name_space@[j].1.0 >= desc0.len()
                                                || slot_from_ports(
                                                port_allocations@,
                                                name_space@[j].1.0 as int,
                                            ));
                                        },
                                        None => {},
                                    }
                                } else {
                                    let j = choose|j: int|
                                        0 <= j < name_space@.len() && (
                                        #[trigger] name_space@[j]) == (
                                            Address(cell_handle, PortHandle(p as usize)),
                                            mapping@[p],
                                        );
                                    assert(name_space@[j].1.0 >= desc0.len() || slot_from_ports(
                                        port_allocations@,
                                        name_space@[j].1.0 as int,
                                    ));
                                }
                            }
                        }
                    }
                    match lowered {
                        Ok(()) => {
                            proof {
                                if links_are_flat(self.modules@, cells0) {
                                    lemma_assigned_count_allocs(desc_iter, desc_mid);
                                    assert(cells0.subrange(0, cidx as int + 1).drop_last()
                                        =~= cells0.subrange(0, cidx as int));
                                    assert(cells0.subrange(0, cidx as int + 1).last() == cells0[
                                        cidx as int]);
                                }
                            }
                        },
                        Err(e) => {
                            return Err(e);
                        },
                    }
                },
            }
            cidx = cidx + 1;
        }
        proof {
            if cells_flat(cells0) || links_are_flat(self.modules@, cells0) {
                assert(cells0.subrange(0, cells0.len() as int) =~= cells0);
            }
        }
        Ok(())
    }
}

} // verus!
