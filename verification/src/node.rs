use vstd::prelude::*;

verus! {

/// A user-supplied unit of periodic computation.
///
/// Anything exposing this capability set qualifies as a node: a stable name,
/// optional self-driven work in `tick`, and mandatory input draining in
/// `process_input`. A region calls `tick` then `process_input` on each of its
/// nodes exactly once per cycle, in registration order.
pub trait Node: Send {
    fn name(&self) -> &String;

    /// Self-driven work done once per cycle, such as reading a device or
    /// firing an output; a pure sink or transform node can leave it at the
    /// default no-op.
    fn tick(&mut self) {
    }

    /// Drain this node's own `Input` ports and react to what arrived,
    /// possibly firing outputs in turn.
    fn process_input(&mut self);
}

} // verus!
