use vstd::prelude::*;
use crate::block::{Block, BlockGraph, BlockInputs};
use crate::broadcaster::BroadcastMsg;
use crate::builder::{build_node, builds, RawBlock};
use crate::error::Error;
use crate::exec::{resumes, steps, timer_ends, Step, Thread, Wait};
use crate::sprite_runtime::SpriteRuntime;
use crate::variables::Variables;

verus! {

/// The ids of the records that start a thread, in the order of the records.
pub open spec fn top_ids(t: Seq<RawBlock>) -> Seq<Seq<char>>
    decreases t.len(),
{
    if t.len() == 0 {
        Seq::empty()
    } else if t.last().top_level {
        top_ids(t.drop_last()).push(t.last().id@)
    } else {
        top_ids(t.drop_last())
    }
}

/// Whether every thread's top block builds.
pub open spec fn tops_build(t: Seq<RawBlock>) -> bool {
    forall|j: int| 0 <= j < t.len() && (#[trigger] t[j]).top_level ==> builds(t, t[j].id@, t.len() as nat)
}

/// An actor: its block graph, one thread per top-level block, and its state.
/// A thread about to run its top block, stored in `g` with the id `id`.
pub open spec fn fresh_at(t: Thread, g: Seq<Block>, id: Seq<char>) -> bool {
    &&& t.spec_top() < g.len()
    &&& g[t.spec_top() as int].id@ == id
    &&& t.spec_current() == Some(t.spec_top())
    &&& t.spec_loops().len() == 0
    &&& t.spec_known().len() == 0
}

#[derive(Debug)]
pub struct Sprite {
    graph: BlockGraph,
    threads: Vec<Thread>,
    runtime: SpriteRuntime,
}

impl Sprite {
    pub closed spec fn spec_threads(&self) -> Seq<Thread> {
        self.threads@
    }

    pub closed spec fn spec_graph(&self) -> BlockGraph {
        self.graph
    }

    pub closed spec fn spec_runtime(&self) -> SpriteRuntime {
        self.runtime
    }

    pub open spec fn wf(&self) -> bool {
        &&& self.spec_graph().wf()
        &&& self.spec_runtime().wf()
        &&& forall|k: int|
            0 <= k < self.spec_threads().len() ==> (#[trigger] self.spec_threads()[k]).wf(
                self.spec_graph()@.len(),
            )
    }

    /// Builds a thread for each top-level record, in the order of the records.
    pub fn new(runtime: SpriteRuntime, blocks: &Vec<RawBlock>) -> (r: Result<Sprite, Error>)
        requires
            runtime.wf(),
        ensures
            r is Ok <==> tops_build(blocks@),
            r matches Ok(s) ==> s.wf() && s.spec_threads().len() == top_ids(blocks@).len()
                && s.spec_runtime() == runtime && forall|k: int|
                0 <= k < s.spec_threads().len() ==> fresh_at(
                    #[trigger] s.spec_threads()[k],
                    s.spec_graph()@,
                    top_ids(blocks@)[k],
                ),
    {
        let mut graph = BlockGraph::new();
        let mut threads: Vec<Thread> = Vec::new();
        let mut j: usize = 0;
        while j < blocks.len()
            invariant
                graph.wf(),
                j <= blocks@.len(),
                threads@.len() == top_ids(blocks@.subrange(0, j as int)).len(),
                forall|k: int| 0 <= k < threads@.len() ==> (#[trigger] threads@[k]).wf(graph@.len()),
                forall|k: int|
                    0 <= k < threads@.len() ==> fresh_at(
                        #[trigger] threads@[k],
                        graph@,
                        top_ids(blocks@.subrange(0, j as int))[k],
                    ),
                forall|k: int|
                    0 <= k < j && (#[trigger] blocks@[k]).top_level ==> builds(
                        blocks@,
                        blocks@[k].id@,
                        blocks@.len() as nat,
                    ),
            decreases blocks@.len() - j,
        {
            let ghost before = blocks@.subrange(0, j as int);
            assert(blocks@.subrange(0, j + 1).drop_last() =~= before);
            let ghost old_graph = graph@;
            if blocks[j].top_level {
                let ghost glen = graph@.len();
                let root = build_node(blocks, &blocks[j].id, blocks.len(), &mut graph)?;
                let ghost gprev = old_graph;
                assert forall|k: int| 0 <= k < threads@.len() implies (#[trigger] threads@[k]).wf(
                    graph@.len(),
                ) && fresh_at(threads@[k], graph@, top_ids(blocks@.subrange(0, j + 1))[k]) by {
                    assert(threads@[k].wf(glen));
                    let top = threads@[k].spec_top();
                    assert(top < glen);
                    assert(graph@[top as int] == graph@.subrange(0, glen as int)[top as int]);
                }
                threads.push(Thread::new(root));
            }
            proof {
                if !blocks@[j as int].top_level {
                    assert(top_ids(blocks@.subrange(0, j + 1)) == top_ids(before));
                }
            }
            j = j + 1;
        }
        assert(blocks@.subrange(0, j as int) =~= blocks@);
        Ok(Sprite { graph, threads, runtime })
    }

    pub fn number_of_threads(&self) -> (r: usize)
        ensures
            r == self.spec_threads().len(),
    {
        self.threads.len()
    }

    pub fn runtime(&self) -> (r: &SpriteRuntime)
        ensures
            *r == self.spec_runtime(),
    {
        &self.runtime
    }

    /// Tells the sprite that the renderer has drawn it.
    pub fn mark_drawn(&mut self)
        requires
            old(self).wf(),
        ensures
            final(self).wf(),
            !final(self).spec_runtime().spec_need_redraw(),
            final(self).spec_threads() == old(self).spec_threads(),
    {
        self.runtime.mark_drawn();
        assert(self.spec_graph() == old(self).spec_graph());
        assert(self.spec_threads() == old(self).spec_threads());
        assert(self.spec_runtime().wf());
    }

    /// Runs one step of thread `t`.
    pub fn step(&mut self, t: usize, vars: &mut Variables) -> (r: Step)
        requires
            old(self).wf(),
            old(vars).wf(),
            t < old(self).spec_threads().len(),
        ensures
            final(self).wf(),
            final(vars).wf(),
            final(self).spec_threads().len() == old(self).spec_threads().len(),
            forall|k: int|
                0 <= k < old(self).spec_threads().len() && k != t ==> final(self).spec_threads()[k]
                    == old(self).spec_threads()[k],
            steps(
                old(self).spec_threads()[t as int],
                final(self).spec_threads()[t as int],
                old(self).spec_graph(),
                final(self).spec_graph(),
                old(self).spec_runtime(),
                final(self).spec_runtime(),
                *old(vars),
                *final(vars),
                r,
            ),
    {
        let mut th = self.threads.remove(t);
        let r = th.step(&mut self.graph, &mut self.runtime, vars);
        self.threads.insert(t, th);
        proof {
            assert(self.spec_threads() =~= old(self).spec_threads().update(t as int, th));
            assert forall|k: int| 0 <= k < self.spec_threads().len() implies (
            #[trigger] self.spec_threads()[k]).wf(self.spec_graph()@.len()) by {
                if k != t {
                    assert(self.spec_threads()[k] == old(self).spec_threads()[k]
                        || self.spec_threads()[k] == old(self).spec_threads()[k - 1]
                        || self.spec_threads()[k] == old(self).spec_threads()[k + 1]);
                }
            }
        }
        r
    }

    /// Hands `msg` to thread `t`, which waits for `wait`; returns whether the wait ended.
    pub fn resume(&mut self, t: usize, wait: &Wait, msg: &BroadcastMsg, vars: &Variables) -> (r: bool)
        requires
            old(self).wf(),
            vars.wf(),
            t < old(self).spec_threads().len(),
        ensures
            final(self).wf(),
            final(self).spec_threads().len() == old(self).spec_threads().len(),
            forall|k: int|
                0 <= k < old(self).spec_threads().len() && k != t ==> final(self).spec_threads()[k]
                    == old(self).spec_threads()[k],
            final(self).spec_runtime() == old(self).spec_runtime(),
            resumes(
                old(self).spec_threads()[t as int],
                final(self).spec_threads()[t as int],
                old(self).spec_graph(),
                final(self).spec_graph(),
                *wait,
                *msg,
                old(self).spec_runtime(),
                *vars,
                r,
            ),
    {
        let mut th = self.threads.remove(t);
        let r = th.resume(&mut self.graph, wait, msg, &self.runtime, vars);
        self.threads.insert(t, th);
        proof {
            assert(self.spec_threads() =~= old(self).spec_threads().update(t as int, th));
            assert forall|k: int| 0 <= k < self.spec_threads().len() implies (
            #[trigger] self.spec_threads()[k]).wf(self.spec_graph()@.len()) by {
                if k != t {
                    assert(self.spec_threads()[k] == old(self).spec_threads()[k]
                        || self.spec_threads()[k] == old(self).spec_threads()[k - 1]
                        || self.spec_threads()[k] == old(self).spec_threads()[k + 1]);
                }
            }
        }
        r
    }

    /// Ends the timed wait of thread `t`.
    pub fn timer_fired(&mut self, t: usize)
        requires
            old(self).wf(),
            t < old(self).spec_threads().len(),
        ensures
            final(self).wf(),
            final(self).spec_threads().len() == old(self).spec_threads().len(),
            forall|k: int|
                0 <= k < old(self).spec_threads().len() && k != t ==> final(self).spec_threads()[k]
                    == old(self).spec_threads()[k],
            final(self).spec_graph() == old(self).spec_graph(),
            timer_ends(
                old(self).spec_threads()[t as int],
                final(self).spec_threads()[t as int],
                old(self).spec_graph(),
                old(self).spec_runtime(),
                final(self).spec_runtime(),
            ),
    {
        let mut th = self.threads.remove(t);
        th.timer_fired(&self.graph, &mut self.runtime);
        self.threads.insert(t, th);
        proof {
            assert(self.spec_threads() =~= old(self).spec_threads().update(t as int, th));
            assert forall|k: int| 0 <= k < self.spec_threads().len() implies (
            #[trigger] self.spec_threads()[k]).wf(self.spec_graph()@.len()) by {
                if k != t {
                    assert(self.spec_threads()[k] == old(self).spec_threads()[k]
                        || self.spec_threads()[k] == old(self).spec_threads()[k - 1]
                        || self.spec_threads()[k] == old(self).spec_threads()[k + 1]);
                }
            }
        }
    }

    /// Hands the pen color the host computed for thread `t`'s shade or hue block back.
    pub fn color_computed(&mut self, t: usize, color: crate::pen::Rgb)
        requires
            old(self).wf(),
            t < old(self).spec_threads().len(),
        ensures
            final(self).wf(),
            final(self).spec_threads().len() == old(self).spec_threads().len(),
            forall|k: int|
                0 <= k < old(self).spec_threads().len() && k != t ==> final(self).spec_threads()[k]
                    == old(self).spec_threads()[k],
            final(self).spec_graph() == old(self).spec_graph(),
            match old(self).spec_threads()[t as int].spec_current() {
                Some(i) => crate::exec::colors_pen(old(self).spec_graph()@[i as int].kind)
                    ==> final(self).spec_runtime().spec_pen().spec_lines().last().color == color,
                None => final(self).spec_runtime() == old(self).spec_runtime(),
            },
    {
        let mut th = self.threads.remove(t);
        th.color_computed(&self.graph, &mut self.runtime, color);
        self.threads.insert(t, th);
        proof {
            assert(self.spec_threads() =~= old(self).spec_threads().update(t as int, th));
            assert forall|k: int| 0 <= k < self.spec_threads().len() implies (
            #[trigger] self.spec_threads()[k]).wf(self.spec_graph()@.len()) by {
                if k != t {
                    assert(self.spec_threads()[k] == old(self).spec_threads()[k]);
                }
            }
        }
    }

    /// A picture of each thread's blocks, for tooling.
    pub fn block_inputs(&self) -> (r: Vec<BlockInputs>)
        requires
            self.wf(),
        ensures
            r@.len() == self.spec_threads().len(),
            forall|k: int|
                0 <= k < r@.len() ==> (#[trigger] r@[k]).info.id@ == self.spec_graph()@[self.spec_threads()[k].spec_top() as int].id@
                    && r@[k].info.name@ == crate::block::kind_name(
                    self.spec_graph()@[self.spec_threads()[k].spec_top() as int].kind,
                ),
    {
        let mut r: Vec<BlockInputs> = Vec::new();
        let mut k: usize = 0;
        while k < self.threads.len()
            invariant
                self.wf(),
                k <= self.spec_threads().len(),
                r@.len() == k,
                forall|j: int|
                    0 <= j < k ==> (#[trigger] r@[j]).info.id@ == self.spec_graph()@[self.spec_threads()[j].spec_top() as int].id@
                        && r@[j].info.name@ == crate::block::kind_name(
                        self.spec_graph()@[self.spec_threads()[j].spec_top() as int].kind,
                    ),
            decreases self.spec_threads().len() - k,
        {
            assert(self.spec_threads()[k as int].wf(self.spec_graph()@.len()));
            let top = self.threads[k].top();
            r.push(self.graph.block_inputs(top));
            k = k + 1;
        }
        r
    }
}

} // verus!
