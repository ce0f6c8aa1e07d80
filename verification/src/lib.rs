mod node;
mod ports;
mod region;

pub use node::Node;
pub use ports::Input;
pub use ports::Output;
pub use region::cycle_outcome;
pub use region::cycle_trace;
pub use region::CycleOutcome;
pub use region::CycleStep;
pub use region::Region;
pub use region::RegionBuilder;

use vstd::prelude::*;

verus! {

/// A structural configuration mistake, found when the assembled system is
/// validated and returned to the caller, who can correct the configuration
/// and retry.
#[derive(Clone, Copy, Debug, PartialEq, Eq, Structural)]
pub enum FlexcoreError {
    /// The infrastructure was finalized without a single region.
    NoRegions,
    /// A region was finalized without a single node.
    NoNodes,
}

/// A runnable configuration: at least one region, and a node in every region.
pub open spec fn valid_regions(regions: Seq<Region>) -> bool {
    &&& regions.len() > 0
    &&& forall|i: int| 0 <= i < regions.len() ==> regions[i].node_count() > 0
}

fn all_regions_populated(regions: &Vec<Region>) -> (ok: bool)
    ensures
        ok == (forall|i: int| 0 <= i < regions@.len() ==> regions@[i].node_count() > 0),
{
    let n: usize = regions.len();
    let mut i: usize = 0;
    while i < n
        invariant
            i <= n,
            n == regions@.len(),
            forall|j: int| 0 <= j < i ==> regions@[j].node_count() > 0,
        decreases n - i,
    {
        if regions[i].num_nodes() == 0 {
            return false;
        }
        i = i + 1;
    }
    true
}

/// Accumulates regions before the system exists; its `build` validates the
/// whole configuration, so an incompletely specified system can never run.
pub struct InfrastructureBuilder {
    pub(crate) regions: Vec<Region>,
}

impl InfrastructureBuilder {
    /// The regions sealed so far, in order.
    pub closed spec fn regions_seq(&self) -> Seq<Region> {
        self.regions@
    }

    /// Open a new region with the given name and tick period; nodes are then
    /// registered on the returned region builder, and its `build` seals the
    /// region back into this builder.
    pub fn with_region(self, name: String, tick: std::time::Duration) -> (builder: RegionBuilder)
        ensures
            builder.sealed_regions() == self.regions_seq(),
            builder.pending_node_count() == 0,
            builder.pending_name() == name@,
            builder.pending_period() == tick,
    {
        RegionBuilder::begin(self, name, tick)
    }

    pub(crate) fn push_region(&mut self, region: Region)
        ensures
            final(self).regions_seq() == old(self).regions_seq().push(region),
    {
        self.regions.push(region);
    }

    /// Validate the accumulated configuration and hand over the assembled
    /// infrastructure: rejected with `NoRegions` when no region was sealed,
    /// and with `NoNodes` when a region holds no node.
    pub fn build(self) -> (result: Result<Infrastructure, FlexcoreError>)
        ensures
            result is Ok <==> valid_regions(self.regions_seq()),
            match result {
                Ok(infra) => infra.regions_seq() == self.regions_seq(),
                Err(e) => {
                    &&& (e == FlexcoreError::NoRegions <==> self.regions_seq().len() == 0)
                    &&& (e == FlexcoreError::NoNodes <==> self.regions_seq().len() > 0)
                },
            },
    {
        if self.regions.is_empty() {
            return Err(FlexcoreError::NoRegions);
        }
        if !all_regions_populated(&self.regions) {
            return Err(FlexcoreError::NoNodes);
        }
        Ok(Infrastructure { regions: self.regions })
    }
}

impl Default for InfrastructureBuilder {
    /// A builder with no region sealed yet.
    fn default() -> (builder: Self)
        ensures
            builder.regions_seq() == Seq::<Region>::empty(),
    {
        InfrastructureBuilder { regions: Vec::new() }
    }
}

/// The assembled system: an ordered collection of regions, each to be driven
/// on a thread of its own once the system is started.
pub struct Infrastructure {
    /// Region settings
    regions: Vec<Region>,
}

impl Infrastructure {
    /// The regions added so far, in order.
    pub closed spec fn regions_seq(&self) -> Seq<Region> {
        self.regions@
    }

    pub open spec fn region_count(&self) -> nat {
        self.regions_seq().len()
    }

    /// Create new infrastructure with no regions yet.
    pub fn new() -> (infra: Self)
        ensures
            infra.region_count() == 0,
    {
        Infrastructure { regions: Vec::new() }
    }

    /// Add a region to the infrastructure.
    pub fn add_region(&mut self, region: Region)
        ensures
            final(self).regions_seq() == old(self).regions_seq().push(region),
    {
        self.regions.push(region);
    }

    pub fn num_regions(&self) -> (n: usize)
        ensures
            n == self.region_count(),
    {
        self.regions.len()
    }

    /// Validate the configuration and surrender the regions, in order, for
    /// scheduling — one thread per region. Rejected with `NoRegions` when the
    /// infrastructure holds no region, and with `NoNodes` when a region holds
    /// no node; both are structural mistakes caught before any thread exists.
    pub fn into_regions(self) -> (result: Result<Vec<Region>, FlexcoreError>)
        ensures
            result is Ok <==> valid_regions(self.regions_seq()),
            match result {
                Ok(regions) => regions@ == self.regions_seq(),
                Err(e) => {
                    &&& (e == FlexcoreError::NoRegions <==> self.region_count() == 0)
                    &&& (e == FlexcoreError::NoNodes <==> self.region_count() > 0)
                },
            },
    {
        if self.regions.is_empty() {
            return Err(FlexcoreError::NoRegions);
        }
        if !all_regions_populated(&self.regions) {
            return Err(FlexcoreError::NoNodes);
        }
        Ok(self.regions)
    }
}

} // verus!
