//! What a run launches, derived from the relay settings.
use vstd::prelude::*;

verus! {

/// The part of the configuration that decides the shape of a run.
#[derive(Clone, Copy, Debug, PartialEq, Eq, Structural)]
pub struct RelaySettings {
    /// Whether the datagram relay runs beside the stream relay.
    pub enable_udp: bool,
    /// Bound of the shared hostname-resolution cache.
    pub dns_cache_capacity: usize,
}

/// One kind of relay task.
#[derive(Clone, Copy, Debug, PartialEq, Eq, Structural)]
pub enum TaskKind {
    Stream,
    Datagram,
}

/// The shape of the concurrent work of one run.
#[derive(Clone, Copy, Debug, PartialEq, Eq, Structural)]
pub enum Workload {
    /// The stream relay alone.
    StreamOnly,
    /// The stream relay joined with the datagram relay.
    StreamAndDatagram,
}

/// The workload selected by the datagram flag.
pub open spec fn workload_of(enable_udp: bool) -> Workload {
    if enable_udp {
        Workload::StreamAndDatagram
    } else {
        Workload::StreamOnly
    }
}

/// Whether a workload holds a task of the given kind.
pub open spec fn holds_task(w: Workload, kind: TaskKind) -> bool {
    match kind {
        TaskKind::Stream => true,
        TaskKind::Datagram => w == Workload::StreamAndDatagram,
    }
}

/// Everything that is launched once the engine is up: the workload, and the
/// capacity of the one resolution cache that all of its tasks share.
#[derive(Clone, Copy, Debug, PartialEq, Eq, Structural)]
pub struct LaunchPlan {
    pub workload: Workload,
    pub resolver_capacity: usize,
}

/// The launch plan that the settings call for.
pub open spec fn plan_of(settings: RelaySettings) -> LaunchPlan {
    LaunchPlan {
        workload: workload_of(settings.enable_udp),
        resolver_capacity: settings.dns_cache_capacity,
    }
}

impl Workload {
    /// Selects the workload from the datagram flag.
    pub fn from_flag(enable_udp: bool) -> (r: Workload)
        ensures
            r == workload_of(enable_udp),
    {
        if enable_udp {
            Workload::StreamAndDatagram
        } else {
            Workload::StreamOnly
        }
    }

    /// Whether this workload holds a task of the given kind.
    pub fn includes(&self, kind: TaskKind) -> (r: bool)
        ensures
            r == holds_task(*self, kind),
    {
        match kind {
            TaskKind::Stream => true,
            TaskKind::Datagram => match self {
                Workload::StreamOnly => false,
                Workload::StreamAndDatagram => true,
            },
        }
    }

    /// The kinds of task in this workload, stream first.
    pub fn tasks(&self) -> (r: Vec<TaskKind>)
        ensures
            r@.len() >= 1,
            r@[0] == TaskKind::Stream,
            forall|k: TaskKind| r@.contains(k) <==> holds_task(*self, k),
            r@.len() == (if *self == Workload::StreamAndDatagram { 2int } else { 1int }),
    {
        let mut v: Vec<TaskKind> = Vec::new();
        v.push(TaskKind::Stream);
        match self {
            Workload::StreamOnly => {},
            Workload::StreamAndDatagram => {
                v.push(TaskKind::Datagram);
            },
        }
        proof {
            assert forall|k: TaskKind| v@.contains(k) <==> holds_task(*self, k) by {
                if holds_task(*self, k) {
                    match k {
                        TaskKind::Stream => assert(v@[0] == k),
                        TaskKind::Datagram => assert(v@[1] == k),
                    }
                }
            }
        }
        v
    }
}

impl LaunchPlan {
    /// The launch plan that the settings call for.
    pub fn for_settings(settings: &RelaySettings) -> (r: LaunchPlan)
        ensures
            r == plan_of(*settings),
    {
        LaunchPlan {
            workload: Workload::from_flag(settings.enable_udp),
            resolver_capacity: settings.dns_cache_capacity,
        }
    }
}

} // verus!
