//! Balancing connections over several nodes: the saved position, and a
//! strategy that picks the next node.  Connection pooling itself is left
//! to the caller.

use vstd::prelude::*;

verus! {

/// The position of a balancer among its nodes.
pub struct LoadBalancerState {
    /// Index of the node the next connection would use.
    pub current_node_index: usize,
}

/// A balancer: a position together with the strategy that advances it.
pub struct LoadBalancer<Next> {
    /// The saved position.
    pub state: LoadBalancerState,
    /// The strategy that picks the next node.
    pub next_fn: Next,
}

} // verus!
