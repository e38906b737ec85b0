//! Primitive counting over a possibly cyclic module-instantiation graph.
//!
//! Every module contributes its local primitive count plus the count of each
//! module it instantiates, once per instantiation. The computation runs in
//! synchronous rounds over a per-module resolution state: a round resolves
//! every module whose links all point at already-resolved modules. As many
//! rounds as the design has modules resolve every module whose expansion is
//! bounded; whatever is still unresolved then sits on a cycle, and the
//! result for it is indefinite rather than a number. Sums saturate at the
//! `u64` maximum instead of wrapping.

use vstd::prelude::*;

use crate::netlist::{cells_flat, prim_count, Cell, Module, ModuleHandle, Netlist};

verus! {

/// Whether the fully expanded primitive count of a module is a number or
/// unbounded.
#[derive(Clone, Copy, Debug, PartialEq, Eq, Structural)]
pub enum PrimitiveCount {
    Definite(u64),
    Indefinite,
}

/// Addition that pegs at the maximum instead of wrapping.
pub open spec fn sat_add(a: u64, b: u64) -> u64 {
    if a + b > u64::MAX {
        u64::MAX
    } else {
        (a + b) as u64
    }
}

/// Addition that pegs at the maximum instead of wrapping.
fn sat_add_x(a: u64, b: u64) -> (r: u64)
    ensures
        r == sat_add(a, b),
{
    if a > u64::MAX - b {
        u64::MAX
    } else {
        a + b
    }
}

/// The module handles of the link cells of `cells`, in cell order, one entry
/// per instantiation.
pub open spec fn links_of(cells: Seq<Cell>) -> Seq<ModuleHandle>
    decreases cells.len(),
{
    if cells.len() == 0 {
        Seq::empty()
    } else {
        let rest = links_of(cells.drop_last());
        match cells.last() {
            Cell::ModuleLink(h) => rest.push(h),
            _ => rest,
        }
    }
}

/// Whether every listed link points at a module the state has already
/// resolved.
pub open spec fn links_resolved(links: Seq<ModuleHandle>, st: Seq<Option<u64>>) -> bool {
    forall|k: int|
        0 <= k < links.len() ==> (#[trigger] links[k]).0 < st.len() && st[links[k].0 as int]
            is Some
}

/// The saturating sum of the resolved counts of the listed links, reading a
/// missing entry as zero.
pub open spec fn links_sum(links: Seq<ModuleHandle>, st: Seq<Option<u64>>) -> u64
    decreases links.len(),
{
    if links.len() == 0 {
        0
    } else {
        let rest = links_sum(links.drop_last(), st);
        let last = links.last();
        let v: u64 = if last.0 < st.len() {
            match st[last.0 as int] {
                Some(c) => c,
                None => 0,
            }
        } else {
            0
        };
        sat_add(rest, v)
    }
}

/// One module's entry after a resolution round: an already-resolved module
/// keeps its count, and a module all of whose links are resolved gains its
/// local primitive count plus the sum over its links.
pub open spec fn module_entry(modules: Seq<Module>, st: Seq<Option<u64>>, i: int) -> Option<u64> {
    if st[i] is Some {
        st[i]
    } else {
        let links = links_of(modules[i].cells@);
        if links_resolved(links, st) {
            Some(sat_add(prim_count(modules[i].cells@) as u64, links_sum(links, st)))
        } else {
            None
        }
    }
}

/// One synchronous resolution round over every module.
pub open spec fn resolve_round(modules: Seq<Module>, st: Seq<Option<u64>>) -> Seq<Option<u64>> {
    Seq::new(st.len(), |i: int| module_entry(modules, st, i))
}

/// The resolution state after `k` rounds, starting all-unresolved.
pub open spec fn resolve_rounds(modules: Seq<Module>, k: nat) -> Seq<Option<u64>>
    decreases k,
{
    if k == 0 {
        Seq::new(modules.len(), |i: int| None::<u64>)
    } else {
        resolve_round(modules, resolve_rounds(modules, (k - 1) as nat))
    }
}

/// What counting primitives reports for the module at index `root`: the
/// resolution after as many rounds as the design has modules, a number if
/// the root resolved and indefinite if it sits on a cycle.
pub open spec fn count_result(modules: Seq<Module>, root: int) -> PrimitiveCount {
    match resolve_rounds(modules, modules.len())[root] {
        Some(v) => PrimitiveCount::Definite(v),
        None => PrimitiveCount::Indefinite,
    }
}

/// How one more link changes resolvedness and the saturating sum.
proof fn lemma_links_push(rest: Seq<ModuleHandle>, h: ModuleHandle, st: Seq<Option<u64>>)
    ensures
        links_resolved(rest.push(h), st) == (links_resolved(rest, st) && h.0 < st.len() && st[h.0
            as int] is Some),
        links_sum(rest.push(h), st) == sat_add(
            links_sum(rest, st),
            if h.0 < st.len() {
                match st[h.0 as int] {
                    Some(c) => c,
                    None => 0u64,
                }
            } else {
                0u64
            },
        ),
{
    assert(rest.push(h).drop_last() =~= rest);
    assert(rest.push(h).last() == h);
    if links_resolved(rest.push(h), st) {
        assert forall|k: int|
            0 <= k < rest.len() implies (#[trigger] rest[k]).0 < st.len() && st[rest[k].0 as int]
            is Some by {
            assert(rest.push(h)[k] == rest[k]);
        }
        assert(rest.push(h)[rest.len() as int] == h);
    }
    if links_resolved(rest, st) && h.0 < st.len() && st[h.0 as int] is Some {
        assert forall|k: int|
            0 <= k < rest.push(h).len() implies (#[trigger] rest.push(h)[k]).0 < st.len() && st[
            rest.push(h)[k].0 as int] is Some by {
            if k < rest.len() {
                assert(rest.push(h)[k] == rest[k]);
            } else {
                assert(rest.push(h)[k] == h);
            }
        }
    }
}

/// A cell list never holds more primitives than cells.
pub proof fn lemma_prim_count_le(cells: Seq<Cell>)
    ensures
        prim_count(cells) <= cells.len(),
    decreases cells.len(),
{
    if cells.len() > 0 {
        lemma_prim_count_le(cells.drop_last());
    }
}

/// A flat cell list has no links.
pub proof fn lemma_flat_no_links(cells: Seq<Cell>)
    requires
        cells_flat(cells),
    ensures
        links_of(cells) =~= Seq::<ModuleHandle>::empty(),
    decreases cells.len(),
{
    if cells.len() > 0 {
        assert(cells_flat(cells.drop_last())) by {
            assert(forall|k: int|
                0 <= k < cells.len() - 1 ==> cells.drop_last()[k] == cells[k]);
        }
        lemma_flat_no_links(cells.drop_last());
    }
}

/// Every round keeps one entry per module.
pub proof fn lemma_rounds_len(modules: Seq<Module>, k: nat)
    ensures
        resolve_rounds(modules, k).len() == modules.len(),
    decreases k,
{
    if k > 0 {
        lemma_rounds_len(modules, (k - 1) as nat);
    }
}

/// A module that instantiates nothing resolves, from the first round on, to
/// exactly its local primitive count.
pub proof fn lemma_flat_resolves(modules: Seq<Module>, root: int, k: nat)
    requires
        0 <= root < modules.len(),
        cells_flat(modules[root].cells@),
        k >= 1,
    ensures
        resolve_rounds(modules, k)[root] == Some(prim_count(modules[root].cells@) as u64),
    decreases k,
{
    lemma_flat_no_links(modules[root].cells@);
    if k == 1 {
        lemma_rounds_len(modules, 0);
    } else {
        lemma_flat_resolves(modules, root, (k - 1) as nat);
        lemma_rounds_len(modules, (k - 1) as nat);
    }
}

/// For a root module that instantiates nothing, counting reports a definite
/// count equal to the module's own primitive-cell count.
pub proof fn lemma_count_flat(modules: Seq<Module>, root: int)
    requires
        0 <= root < modules.len(),
        cells_flat(modules[root].cells@),
    ensures
        count_result(modules, root) == PrimitiveCount::Definite(
            prim_count(modules[root].cells@) as u64,
        ),
{
    lemma_flat_resolves(modules, root, modules.len());
}

/// Whether the module at ring position `i` instantiates the module at the
/// next position around the ring.
pub open spec fn cycle_link(modules: Seq<Module>, cycle: Seq<int>, i: int) -> bool {
    exists|w: int|
        0 <= w < links_of(modules[cycle[i]].cells@).len() && (#[trigger] links_of(
            modules[cycle[i]].cells@,
        )[w]).0 == cycle[if i + 1 < cycle.len() {
            i + 1
        } else {
            0
        }]
}

/// The listed modules form an instantiation ring inside the design: each
/// one instantiates the next, and the last instantiates the first. A ring
/// of one module instantiates itself.
pub open spec fn instantiation_cycle(modules: Seq<Module>, cycle: Seq<int>) -> bool {
    &&& cycle.len() > 0
    &&& forall|i: int| 0 <= i < cycle.len() ==> 0 <= (#[trigger] cycle[i]) < modules.len()
    &&& forall|i: int| 0 <= i < cycle.len() ==> #[trigger] cycle_link(modules, cycle, i)
}

/// Every module of an instantiation ring stays unresolved through every
/// round: resolving any of them would first need the next one resolved.
proof fn lemma_cycle_unresolved(modules: Seq<Module>, cycle: Seq<int>, k: nat)
    requires
        instantiation_cycle(modules, cycle),
    ensures
        forall|i: int|
            0 <= i < cycle.len() ==> resolve_rounds(modules, k)[(#[trigger] cycle[i])] is None,
    decreases k,
{
    lemma_rounds_len(modules, k);
    if k > 0 {
        lemma_cycle_unresolved(modules, cycle, (k - 1) as nat);
        lemma_rounds_len(modules, (k - 1) as nat);
        let st = resolve_rounds(modules, (k - 1) as nat);
        assert forall|i: int|
            0 <= i < cycle.len() implies resolve_rounds(modules, k)[(#[trigger] cycle[i])]
            is None by {
            assert(cycle_link(modules, cycle, i));
            let nxt = if i + 1 < cycle.len() {
                i + 1
            } else {
                0
            };
            let w = choose|w: int|
                0 <= w < links_of(modules[cycle[i]].cells@).len() && (#[trigger] links_of(
                    modules[cycle[i]].cells@,
                )[w]).0 == cycle[nxt];
            assert(st[cycle[nxt]] is None);
            assert(!links_resolved(links_of(modules[cycle[i]].cells@), st));
        }
    }
}

/// A design whose root module sits on an instantiation ring — itself, or a
/// chain of modules that eventually instantiates it again — is counted
/// indefinite: its expansion has no bound.
pub proof fn lemma_cycle_indefinite(modules: Seq<Module>, cycle: Seq<int>)
    requires
        instantiation_cycle(modules, cycle),
    ensures
        count_result(modules, cycle[0]) == PrimitiveCount::Indefinite,
{
    lemma_cycle_unresolved(modules, cycle, modules.len());
}

impl Netlist {
    /// Computes whether the total primitive-gate count in the fully expanded
    /// hierarchy below `top` is bounded, and what it is when it is: a design
    /// whose instantiation chains never resolve — a cyclic design — reports
    /// `Indefinite` instead of hanging, as does a handle outside the design.
    pub fn count_primitives(&self, top: ModuleHandle) -> (r: PrimitiveCount)
        ensures
            top.0 < self.modules@.len() ==> r == count_result(self.modules@, top.0 as int),
            top.0 >= self.modules@.len() ==> r == PrimitiveCount::Indefinite,
    {
        let n = self.modules.len();
        if top.0 >= n {
            return PrimitiveCount::Indefinite;
        }

        let mut st: Vec<Option<u64>> = Vec::new();
        let mut fill: usize = 0;
        while fill < n
            invariant
                fill <= n,
                st@ =~= Seq::new(fill as nat, |i: int| None::<u64>),
            decreases n - fill,
        {
            st.push(None);
            fill = fill + 1;
        }

        let mut round: usize = 0;
        while round < n
            invariant
                round <= n,
                n == self.modules@.len(),
                st@ == resolve_rounds(self.modules@, round as nat),
                st@.len() == n,
            decreases n - round,
        {
            let mut new_st: Vec<Option<u64>> = Vec::new();
            let mut i: usize = 0;
            while i < n
                invariant
                    i <= n,
                    n == self.modules@.len(),
                    st@.len() == n,
                    new_st@.len() == i,
                    forall|j: int|
                        0 <= j < i ==> new_st@[j] == module_entry(self.modules@, st@, j),
                decreases n - i,
            {
                match st[i] {
                    Some(v) => {
                        new_st.push(Some(v));
                    },
                    None => {
                        let ghost cells_view = self.modules@[i as int].cells@;
                        let mut ok: bool = true;
                        let mut link_sum: u64 = 0;
                        let mut local: u64 = 0;
                        let mut c: usize = 0;
                        proof {
                            assert(cells_view.subrange(0, 0) =~= Seq::<Cell>::empty());
                        }
                        while c < self.modules[i].cells.len()
                            invariant
                                i < n,
                                n == self.modules@.len(),
                                st@.len() == n,
                                cells_view == self.modules@[i as int].cells@,
                                c <= cells_view.len(),
                                local == prim_count(cells_view.subrange(0, c as int)),
                                local <= c,
                                ok == links_resolved(
                                    links_of(cells_view.subrange(0, c as int)),
                                    st@,
                                ),
                                ok ==> link_sum == links_sum(
                                    links_of(cells_view.subrange(0, c as int)),
                                    st@,
                                ),
                            decreases cells_view.len() - c,
                        {
                            proof {
                                assert(cells_view.subrange(0, c as int + 1).drop_last()
                                    =~= cells_view.subrange(0, c as int));
                                assert(cells_view.subrange(0, c as int + 1).last() == cells_view[
                                    c as int]);
                                if cells_view[c as int] is ModuleLink {
                                    lemma_links_push(
                                        links_of(cells_view.subrange(0, c as int)),
                                        cells_view[c as int]->ModuleLink_0,
                                        st@,
                                    );
                                }
                            }
                            match &self.modules[i].cells[c] {
                                Cell::Primitive(_) => {
                                    local = local + 1;
                                },
                                Cell::ModuleLink(h) => {
                                    if h.0 < n {
                                        match st[h.0] {
                                            Some(v) => {
                                                if ok {
                                                    link_sum = sat_add_x(link_sum, v);
                                                }
                                            },
                                            None => {
                                                ok = false;
                                            },
                                        }
                                    } else {
                                        ok = false;
                                    }
                                },
                                Cell::InputProxy(_) => {},
                            }
                            c = c + 1;
                        }
                        proof {
                            assert(cells_view.subrange(0, cells_view.len() as int)
                                =~= cells_view);
                            lemma_prim_count_le(cells_view);
                        }
                        if ok {
                            new_st.push(Some(sat_add_x(local, link_sum)));
                        } else {
                            new_st.push(None);
                        }
                    },
                }
                i = i + 1;
            }
            proof {
                assert(new_st@ =~= resolve_round(self.modules@, st@));
            }
            st = new_st;
            round = round + 1;
        }

        match st[top.0] {
            Some(v) => PrimitiveCount::Definite(v),
            None => PrimitiveCount::Indefinite,
        }
    }
}

} // verus!
