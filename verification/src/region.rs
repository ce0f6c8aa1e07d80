use crate::node::Node;
use crate::FlexcoreError;
use crate::InfrastructureBuilder;
use std::time::Duration;
use vstd::prelude::*;

verus! {

/// One entry in the ghost record of a region cycle: node `i` had its
/// self-driven `tick` run, or its `process_input`.
pub enum CycleStep {
    Ticked(usize),
    Processed(usize),
}

/// The record of one full cycle over `n` nodes: `tick` then `process_input`
/// for node 0, then for node 1, and so on through node `n - 1`, each exactly
/// once.
pub open spec fn cycle_trace(n: nat) -> Seq<CycleStep>
    decreases n,
{
    if n == 0 {
        Seq::empty()
    } else {
        cycle_trace((n - 1) as nat)
            + seq![
                CycleStep::Ticked((n - 1) as usize),
                CycleStep::Processed((n - 1) as usize),
            ]
    }
}

/// Law: one full cycle over `n` nodes touches every node exactly once, in
/// registration order, `tick` first and `process_input` second — entry
/// `2 * i` of the trace is node `i`'s tick and entry `2 * i + 1` its input
/// processing, and nothing else is in the trace.
pub proof fn lemma_cycle_trace_order(n: nat)
    ensures
        cycle_trace(n).len() == 2 * n,
        forall|k: int|
            0 <= k < 2 * n ==> #[trigger] cycle_trace(n)[k] == (if k % 2 == 0 {
                CycleStep::Ticked((k / 2) as usize)
            } else {
                CycleStep::Processed((k / 2) as usize)
            }),
    decreases n,
{
    if n > 0 {
        lemma_cycle_trace_order((n - 1) as nat);
        let prev = cycle_trace((n - 1) as nat);
        let whole = cycle_trace(n);
        assert forall|k: int| 0 <= k < 2 * n implies #[trigger] whole[k] == (if k % 2 == 0 {
            CycleStep::Ticked((k / 2) as usize)
        } else {
            CycleStep::Processed((k / 2) as usize)
        }) by {
            if k < prev.len() {
                assert(whole[k] == prev[k]);
            } else {
                assert(k == 2 * (n - 1) || k == 2 * (n - 1) + 1);
            }
        }
    }
}

/// Erase a node's concrete type so that a region can own it alongside nodes
/// of other types.
fn boxed_node<T: Node + 'static>(node: T) -> Box<dyn Node> {
    Box::new(node)
}

/// A named group of nodes driven in lock-step: every cycle runs all of them,
/// in registration order, at one shared tick period.
pub struct Region {
    name: String,
    /// Work tick duration
    tick: Duration,
    /// Processing nodes in this region
    nodes: Vec<Box<dyn Node>>,
}

impl Region {
    /// The nodes in registration order.
    pub closed spec fn nodes_seq(&self) -> Seq<Box<dyn Node>> {
        self.nodes@
    }

    /// How many nodes this region drives.
    pub open spec fn node_count(&self) -> nat {
        self.nodes_seq().len()
    }

    pub closed spec fn spec_name(&self) -> Seq<char> {
        self.name@
    }

    pub closed spec fn spec_period(&self) -> Duration {
        self.tick
    }

    /// Construct a new region with no nodes yet.
    pub fn new(name: String, tick: Duration) -> (region: Self)
        ensures
            region.node_count() == 0,
            region.spec_name() == name@,
            region.spec_period() == tick,
    {
        Region { name, tick, nodes: Vec::new() }
    }

    /// Append a node at the end of the roster: it will run after every node
    /// registered before it, all of which keep their place.
    pub fn add_node<T: Node + 'static>(&mut self, node: T)
        ensures
            final(self).node_count() == old(self).node_count() + 1,
            forall|j: int|
                0 <= j < old(self).node_count() ==> final(self).nodes_seq()[j] == old(
                    self,
                ).nodes_seq()[j],
            final(self).spec_name() == old(self).spec_name(),
            final(self).spec_period() == old(self).spec_period(),
    {
        self.push_boxed(boxed_node(node));
    }

    fn push_boxed(&mut self, boxed: Box<dyn Node>)
        ensures
            final(self).nodes_seq() == old(self).nodes_seq().push(boxed),
            final(self).node_count() == old(self).node_count() + 1,
            forall|j: int|
                0 <= j < old(self).node_count() ==> final(self).nodes_seq()[j] == old(
                    self,
                ).nodes_seq()[j],
            final(self).spec_name() == old(self).spec_name(),
            final(self).spec_period() == old(self).spec_period(),
    {
        self.nodes.push(boxed);
        proof {
            vstd::seq::axiom_seq_push_len::<Box<dyn Node>>(old(self).nodes@, boxed);
            assert forall|j: int| 0 <= j < old(self).nodes@.len() implies self.nodes@[j] == old(
                self,
            ).nodes@[j] by {
                vstd::seq::axiom_seq_push_index_different::<Box<dyn Node>>(
                    old(self).nodes@,
                    boxed,
                    j,
                );
            }
        }
    }

    pub fn name(&self) -> (name: &String)
        ensures
            name@ == self.spec_name(),
    {
        &self.name
    }

    pub fn tick(&self) -> (tick: Duration)
        ensures
            tick == self.spec_period(),
    {
        self.tick
    }

    pub fn num_nodes(&self) -> (n: usize)
        ensures
            n == self.node_count(),
    {
        self.nodes.len()
    }

    pub fn nodes_mut(&mut self) -> (nodes: &mut Vec<Box<dyn Node>>)
        ensures
            (*nodes)@ == old(self).nodes_seq(),
            final(self).nodes_seq() == (*final(nodes))@,
            final(self).spec_name() == old(self).spec_name(),
            final(self).spec_period() == old(self).spec_period(),
    {
        &mut self.nodes
    }

    /// Drive one full cycle: `tick` then `process_input` on every node, in
    /// registration order, each exactly once. The returned ghost trace
    /// records the calls in the order they were made.
    pub fn run_cycle(&mut self) -> (trace: Ghost<Seq<CycleStep>>)
        ensures
            final(self).node_count() == old(self).node_count(),
            final(self).spec_name() == old(self).spec_name(),
            final(self).spec_period() == old(self).spec_period(),
            trace@ == cycle_trace(old(self).node_count()),
    {
        let ghost mut steps: Seq<CycleStep> = Seq::empty();
        let n: usize = self.nodes.len();
        let mut i: usize = 0;
        while i < n
            invariant
                i <= n,
                n == self.nodes@.len(),
                self.name == old(self).name,
                self.tick == old(self).tick,
                steps == cycle_trace(i as nat),
            decreases n - i,
        {
            let node = &mut self.nodes[i];
            node.tick();
            proof {
                steps = steps.push(CycleStep::Ticked(i));
            }
            node.process_input();
            proof {
                steps = steps.push(CycleStep::Processed(i));
                assert(steps =~= cycle_trace((i + 1) as nat));
            }
            i = i + 1;
        }
        Ghost(steps)
    }
}

/// What the scheduler does once a cycle's node work is done: report a missed
/// deadline and start the next cycle at once, or sleep away the remainder of
/// the period.
pub struct CycleOutcome {
    pub missed_deadline: bool,
    pub sleep_nanos: u64,
}

/// The scheduling decision after one cycle whose node work took
/// `elapsed_nanos` out of a period of `period_nanos`: work that ran past the
/// period is a missed deadline — reported, never fatal — and gets no sleep, so
/// the next cycle starts immediately; otherwise the rest of the period is
/// slept away, holding a steady cadence.
pub fn cycle_outcome(period_nanos: u64, elapsed_nanos: u64) -> (outcome: CycleOutcome)
    ensures
        outcome.missed_deadline == (elapsed_nanos > period_nanos),
        outcome.missed_deadline ==> outcome.sleep_nanos == 0,
        !outcome.missed_deadline ==> elapsed_nanos + outcome.sleep_nanos == period_nanos,
{
    if elapsed_nanos > period_nanos {
        CycleOutcome { missed_deadline: true, sleep_nanos: 0 }
    } else {
        CycleOutcome { missed_deadline: false, sleep_nanos: period_nanos - elapsed_nanos }
    }
}

/// Accumulates one region's configuration; `build` seals it into the owning
/// infrastructure builder, rejecting a region with no nodes.
pub struct RegionBuilder {
    pub(crate) name: String,
    pub(crate) tick: Duration,
    pub(crate) nodes: Vec<Box<dyn Node>>,
    pub(crate) infra: InfrastructureBuilder,
}

impl RegionBuilder {
    /// The nodes registered so far, in order.
    pub closed spec fn pending_nodes(&self) -> Seq<Box<dyn Node>> {
        self.nodes@
    }

    pub open spec fn pending_node_count(&self) -> nat {
        self.pending_nodes().len()
    }

    pub closed spec fn pending_name(&self) -> Seq<char> {
        self.name@
    }

    pub closed spec fn pending_period(&self) -> Duration {
        self.tick
    }

    /// The regions already sealed into the owning infrastructure builder.
    pub closed spec fn sealed_regions(&self) -> Seq<Region> {
        self.infra.regions_seq()
    }

    pub(crate) fn begin(infra: InfrastructureBuilder, name: String, tick: Duration) -> (builder: Self)
        ensures
            builder.sealed_regions() == infra.regions_seq(),
            builder.pending_node_count() == 0,
            builder.pending_name() == name@,
            builder.pending_period() == tick,
    {
        let nodes: Vec<Box<dyn Node>> = Vec::new();
        RegionBuilder { name, tick, nodes, infra }
    }

    /// Register a node with this region, appended after the nodes already
    /// registered, which keep their place.
    pub fn with_node<T: Node + 'static>(self, node: T) -> (builder: Self)
        ensures
            builder.pending_node_count() == self.pending_node_count() + 1,
            forall|j: int|
                0 <= j < self.pending_node_count() ==> builder.pending_nodes()[j]
                    == self.pending_nodes()[j],
            builder.pending_name() == self.pending_name(),
            builder.pending_period() == self.pending_period(),
            builder.sealed_regions() == self.sealed_regions(),
    {
        let mut builder = self;
        builder.push_pending(boxed_node(node));
        builder
    }

    fn push_pending(&mut self, boxed: Box<dyn Node>)
        ensures
            final(self).pending_nodes() == old(self).pending_nodes().push(boxed),
            final(self).pending_node_count() == old(self).pending_node_count() + 1,
            forall|j: int|
                0 <= j < old(self).pending_node_count() ==> final(self).pending_nodes()[j] == old(
                    self,
                ).pending_nodes()[j],
            final(self).pending_name() == old(self).pending_name(),
            final(self).pending_period() == old(self).pending_period(),
            final(self).sealed_regions() == old(self).sealed_regions(),
    {
        self.nodes.push(boxed);
        proof {
            vstd::seq::axiom_seq_push_len::<Box<dyn Node>>(old(self).nodes@, boxed);
            assert forall|j: int| 0 <= j < old(self).nodes@.len() implies self.nodes@[j] == old(
                self,
            ).nodes@[j] by {
                vstd::seq::axiom_seq_push_index_different::<Box<dyn Node>>(
                    old(self).nodes@,
                    boxed,
                    j,
                );
            }
        }
    }

    /// Seal this region into the infrastructure builder. A region with no
    /// nodes is a structural configuration mistake and is rejected here, at
    /// build time, never at runtime.
    pub fn build(self) -> (result: Result<InfrastructureBuilder, FlexcoreError>)
        ensures
            result is Err <==> self.pending_node_count() == 0,
            match result {
                Ok(b) => {
                    &&& b.regions_seq().len() == self.sealed_regions().len() + 1
                    &&& (forall|j: int|
                        0 <= j < self.sealed_regions().len() ==> b.regions_seq()[j]
                            == self.sealed_regions()[j])
                    &&& b.regions_seq().last().nodes_seq() == self.pending_nodes()
                    &&& b.regions_seq().last().spec_name() == self.pending_name()
                    &&& b.regions_seq().last().spec_period() == self.pending_period()
                },
                Err(e) => e == FlexcoreError::NoNodes,
            },
    {
        if self.nodes.is_empty() {
            return Err(FlexcoreError::NoNodes);
        }
        let RegionBuilder { name, tick, nodes, infra } = self;
        let mut infra = infra;
        let region = Region { name, tick, nodes };
        infra.push_region(region);
        Ok(infra)
    }
}

} // verus!
