//! Lazy enumeration of the paths to every primitive cell of a hierarchy.
//!
//! A [`CellLayout`] is a pull-based cursor over the fully expanded design:
//! it maintains an explicit stack of per-module iteration cursors rather
//! than recursing, because a cyclic design expands without bound and the
//! consumer must be able to pull a bounded prefix without the producer ever
//! trying to materialise the whole sequence. One [`CellLayout::step`] does a
//! bounded amount of work: it yields the path of one primitive cell, or
//! advances the cursors, or reports the walk finished.

use vstd::prelude::*;

use crate::netlist::{Cell, CellHandle, Module, ModuleHandle, Netlist};

verus! {

/// What one step of the walk produced.
#[derive(Clone, Debug)]
pub enum LayoutStep {
    /// The path of cell handles from the root module down through nested
    /// module instantiations to one primitive cell.
    Path(Vec<CellHandle>),
    /// Cursors advanced; nothing to report yet.
    Working,
    /// Every reachable cell has been walked.
    Exhausted,
}

/// The cursor stack is well formed over the design: every frame points into
/// a module of the design with its cursor inside the module's cell list, and
/// every frame below the top stands just past a link cell that instantiates
/// the module of the frame above it.
pub open spec fn frames_wf(stack: Seq<(usize, usize)>, modules: Seq<Module>) -> bool {
    &&& forall|k: int|
        0 <= k < stack.len() ==> (#[trigger] stack[k]).0 < modules.len() && stack[k].1 <= modules[
            stack[k].0 as int].cells@.len()
    &&& forall|k: int|
        0 <= k < stack.len() - 1 ==> (#[trigger] stack[k]).1 >= 1 && modules[stack[k].0 as
            int].cells@[stack[k].1 - 1] == Cell::ModuleLink(ModuleHandle(stack[k + 1].0))
}

/// The path `p` leads from module `m` through nested module instantiations
/// to a primitive cell.
pub open spec fn path_targets_primitive(modules: Seq<Module>, m: int, p: Seq<CellHandle>) -> bool
    decreases p.len(),
{
    if p.len() == 0 {
        false
    } else {
        &&& 0 <= m < modules.len()
        &&& p[0].0 < modules[m].cells@.len()
        &&& if p.len() == 1 {
            modules[m].cells@[p[0].0 as int] is Primitive
        } else {
            modules[m].cells@[p[0].0 as int] matches Cell::ModuleLink(h)
                && path_targets_primitive(modules, h.0 as int, p.drop_first())
        }
    }
}

/// The path a cursor stack yields when its top frame stands on the primitive
/// cell `c`: the link each lower frame has just passed, then `c` itself.
pub open spec fn stack_path(stack: Seq<(usize, usize)>, c: usize) -> Seq<CellHandle> {
    Seq::new(
        stack.len(),
        |k: int|
            if k < stack.len() - 1 {
                CellHandle((stack[k].1 - 1) as usize)
            } else {
                CellHandle(c)
            },
    )
}

/// A well-formed cursor stack standing on a primitive cell yields a path
/// that leads from its root module to that primitive.
proof fn lemma_stack_path_targets(stack: Seq<(usize, usize)>, modules: Seq<Module>, c: usize)
    requires
        frames_wf(stack, modules),
        stack.len() > 0,
        c < modules[stack.last().0 as int].cells@.len(),
        modules[stack.last().0 as int].cells@[c as int] is Primitive,
    ensures
        path_targets_primitive(modules, stack[0].0 as int, stack_path(stack, c)),
    decreases stack.len(),
{
    let p = stack_path(stack, c);
    if stack.len() == 1 {
        assert(p.len() == 1);
        assert(p[0] == CellHandle(c));
    } else {
        let rest = stack.drop_first();
        assert(frames_wf(rest, modules)) by {
            assert(forall|k: int| 0 <= k < rest.len() ==> rest[k] == stack[k + 1]);
        }
        assert(rest.last() == stack.last());
        lemma_stack_path_targets(rest, modules, c);
        assert(stack_path(rest, c) =~= p.drop_first());
        assert(p[0] == CellHandle((stack[0].1 - 1) as usize));
        assert(modules[stack[0].0 as int].cells@[stack[0].1 - 1] == Cell::ModuleLink(
            ModuleHandle(stack[1].0),
        ));
    }
}

/// A pull-based walk over every primitive cell of the hierarchy below one
/// root module, skipping input-proxy cells entirely and descending into
/// every module instantiation, dangling links excepted.
#[derive(Clone, Debug)]
pub struct CellLayout {
    pub stack: Vec<(usize, usize)>,
}

impl CellLayout {
    /// Starts a walk at the first cell of the module at `top`; a handle
    /// outside the design yields an already-exhausted walk.
    pub fn new(nl: &Netlist, top: ModuleHandle) -> (r: CellLayout)
        ensures
            frames_wf(r.stack@, nl.modules@),
            top.0 < nl.modules@.len() ==> r.stack@ =~= seq![(top.0, 0usize)],
            top.0 >= nl.modules@.len() ==> r.stack@ =~= Seq::<(usize, usize)>::empty(),
    {
        let mut stack: Vec<(usize, usize)> = Vec::new();
        if top.0 < nl.modules.len() {
            stack.push((top.0, 0));
        }
        CellLayout { stack }
    }

    /// Advances the walk by one bounded step.
    ///
    /// An empty cursor stack is exhausted, and only then. A cursor standing
    /// past its module's last cell pops. A cursor on an input proxy skips
    /// it; on a module link it descends, unless the link dangles; on a
    /// primitive cell it yields the path from the root to that cell and
    /// moves on.
    pub fn step(&mut self, nl: &Netlist) -> (r: LayoutStep)
        requires
            frames_wf(old(self).stack@, nl.modules@),
        ensures
            frames_wf(final(self).stack@, nl.modules@),
            (r is Exhausted) == (old(self).stack@.len() == 0),
            old(self).stack@.len() == 0 ==> final(self).stack@ == old(self).stack@,
            old(self).stack@.len() > 0 ==> {
                let m = old(self).stack@.last().0;
                let c = old(self).stack@.last().1;
                let advanced = old(self).stack@.update(
                    old(self).stack@.len() - 1,
                    (m, (c + 1) as usize),
                );
                if c == nl.modules@[m as int].cells@.len() {
                    r is Working && final(self).stack@ == old(self).stack@.drop_last()
                } else {
                    match nl.modules@[m as int].cells@[c as int] {
                        Cell::InputProxy(_) => r is Working && final(self).stack@ == advanced,
                        Cell::ModuleLink(h) => r is Working && if h.0 < nl.modules@.len() {
                            final(self).stack@ == advanced.push((h.0, 0usize))
                        } else {
                            final(self).stack@ == advanced
                        },
                        Cell::Primitive(_) => r matches LayoutStep::Path(p) && p@ == stack_path(
                            old(self).stack@,
                            c,
                        ) && path_targets_primitive(
                            nl.modules@,
                            old(self).stack@[0].0 as int,
                            p@,
                        ) && final(self).stack@ == advanced,
                    }
                }
            },
    {
        let n = self.stack.len();
        if n == 0 {
            return LayoutStep::Exhausted;
        }
        let top_idx = n - 1;
        let (m, c) = self.stack[top_idx];
        let module_cells = &nl.modules[m].cells;
        if c == module_cells.len() {
            self.stack.pop();
            proof {
                assert(self.stack@ =~= old(self).stack@.drop_last());
            }
            return LayoutStep::Working;
        }
        match &module_cells[c] {
            Cell::InputProxy(_) => {
                self.stack.set(top_idx, (m, c + 1));
                proof {
                    assert(frames_wf(self.stack@, nl.modules@)) by {
                        assert(forall|k: int|
                            0 <= k < self.stack@.len() - 1 ==> self.stack@[k] == old(
                                self,
                            ).stack@[k]);
                    }
                }
                LayoutStep::Working
            },
            Cell::ModuleLink(h) => {
                self.stack.set(top_idx, (m, c + 1));
                if h.0 < nl.modules.len() {
                    self.stack.push((h.0, 0));
                }
                proof {
                    assert(frames_wf(self.stack@, nl.modules@)) by {
                        assert(forall|k: int|
                            0 <= k < old(self).stack@.len() - 1 ==> self.stack@[k] == old(
                                self,
                            ).stack@[k]);
                    }
                }
                LayoutStep::Working
            },
            Cell::Primitive(_) => {
                let mut p: Vec<CellHandle> = Vec::new();
                let mut k: usize = 0;
                while k < top_idx
                    invariant
                        k <= top_idx,
                        top_idx == self.stack@.len() - 1,
                        frames_wf(self.stack@, nl.modules@),
                        p@.len() == k,
                        forall|j: int|
                            0 <= j < k ==> (#[trigger] p@[j]) == CellHandle(
                                (self.stack@[j].1 - 1) as usize,
                            ),
                    decreases top_idx - k,
                {
                    let (_fm, fc) = self.stack[k];
                    p.push(CellHandle(fc - 1));
                    k = k + 1;
                }
                p.push(CellHandle(c));
                proof {
                    assert(p@ =~= stack_path(self.stack@, c));
                    lemma_stack_path_targets(self.stack@, nl.modules@, c);
                }
                self.stack.set(top_idx, (m, c + 1));
                proof {
                    assert(frames_wf(self.stack@, nl.modules@)) by {
                        assert(forall|k2: int|
                            0 <= k2 < self.stack@.len() - 1 ==> self.stack@[k2] == old(
                                self,
                            ).stack@[k2]);
                    }
                }
                LayoutStep::Path(p)
            },
        }
    }
}

impl Netlist {
    /// Starts a lazy walk over the paths to every primitive cell of the
    /// hierarchy rooted at `top`.
    pub fn cell_layout(&self, top: ModuleHandle) -> (r: CellLayout)
        ensures
            frames_wf(r.stack@, self.modules@),
            top.0 < self.modules@.len() ==> r.stack@ =~= seq![(top.0, 0usize)],
            top.0 >= self.modules@.len() ==> r.stack@ =~= Seq::<(usize, usize)>::empty(),
    {
        CellLayout::new(self, top)
    }
}

} // verus!
