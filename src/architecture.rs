use vstd::prelude::*;

verus! {

/// What the overlay reads of one core of the architecture description: its
/// identity, the task allocated to it, and the named attributes of the core
/// and of its router.
pub struct CoreRecord {
    pub id: u8,
    pub allocated_task: Option<u16>,
    pub attributes: Vec<(String, String)>,
    pub router_attributes: Vec<(String, String)>,
}

/// What a routing result is keyed by: a core, or the sink of a core.
#[derive(PartialEq, Eq, Structural, Clone, Copy, Debug)]
pub enum RoutingTarget {
    Core(usize),
    Sink(usize),
}

} // verus!
