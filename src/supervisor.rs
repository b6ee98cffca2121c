//! The decisions of a run: bootstrap, launch, and the fail-fast join of the
//! relay tasks, as a state machine driven by the events the caller observes.
use vstd::prelude::*;
use crate::workload::{LaunchPlan, RelaySettings, TaskKind, plan_of};

verus! {

/// Where a run stands.
#[derive(Clone, Copy, Debug, PartialEq, Eq, Structural)]
pub enum Phase {
    /// The execution engine is being built; no task exists yet.
    Booting,
    /// The tasks are launched; each flag tells whether that task is present
    /// and has not finished yet.
    Running { stream_pending: bool, datagram_pending: bool },
    /// The run has produced its result.
    Finished,
}

/// What the caller observes while it performs the run.
#[derive(Debug)]
pub enum Event<E> {
    /// The execution engine was built.
    EngineReady,
    /// Building the execution engine failed with this error.
    EngineFailed(E),
    /// A relay task resolved with this result.
    TaskFinished(TaskKind, Result<(), E>),
}

/// What the caller does next.
#[derive(Debug)]
pub enum Action<E> {
    /// Build the shared context and launch the tasks of this plan.
    Launch(LaunchPlan),
    /// Keep driving the engine until the next event.
    Wait,
    /// Stop and hand this result to the caller of the run.
    Return(Result<(), E>),
}

/// Whether the task of the given kind is still awaited in a running phase.
pub open spec fn awaited(stream_pending: bool, datagram_pending: bool, kind: TaskKind) -> bool {
    match kind {
        TaskKind::Stream => stream_pending,
        TaskKind::Datagram => datagram_pending,
    }
}

/// One decision of the run. An event that does not belong to the current
/// phase (a task that is absent or already finished, anything once the run
/// is finished) changes nothing.
pub open spec fn step<E>(settings: RelaySettings, phase: Phase, ev: Event<E>) -> (Phase, Action<E>) {
    match phase {
        Phase::Booting => match ev {
            Event::EngineReady => (
                Phase::Running { stream_pending: true, datagram_pending: settings.enable_udp },
                Action::Launch(plan_of(settings)),
            ),
            Event::EngineFailed(e) => (Phase::Finished, Action::Return(Err(e))),
            Event::TaskFinished(_, _) => (phase, Action::Wait),
        },
        Phase::Running { stream_pending, datagram_pending } => match ev {
            Event::TaskFinished(kind, res) => {
                if !awaited(stream_pending, datagram_pending, kind) {
                    (phase, Action::Wait)
                } else {
                    match res {
                        Err(e) => (Phase::Finished, Action::Return(Err(e))),
                        Ok(_) => {
                            let sp = stream_pending && kind != TaskKind::Stream;
                            let dp = datagram_pending && kind != TaskKind::Datagram;
                            if !sp && !dp {
                                (Phase::Finished, Action::Return(Ok(())))
                            } else {
                                (Phase::Running { stream_pending: sp, datagram_pending: dp }, Action::Wait)
                            }
                        },
                    }
                }
            },
            _ => (phase, Action::Wait),
        },
        Phase::Finished => (phase, Action::Wait),
    }
}

/// A phase that the settings allow: the datagram task is only ever awaited
/// where the datagram relay is enabled.
pub open spec fn phase_fits(settings: RelaySettings, phase: Phase) -> bool {
    match phase {
        Phase::Running { stream_pending: _, datagram_pending } => datagram_pending
            ==> settings.enable_udp,
        _ => true,
    }
}

/// Whether an event is the result of a task of the given kind.
pub open spec fn is_result_of<E>(ev: Event<E>, kind: TaskKind) -> bool {
    match ev {
        Event::TaskFinished(k, _) => k == kind,
        _ => false,
    }
}

/// The result of a run that starts in `phase` and observes `evs` in order:
/// the first result returned, or `None` while the run is still going on.
pub open spec fn outcome<E>(settings: RelaySettings, phase: Phase, evs: Seq<Event<E>>) -> Option<
    Result<(), E>,
>
    decreases evs.len(),
{
    if evs.len() == 0 {
        None
    } else {
        let (next, act) = step(settings, phase, evs[0]);
        match act {
            Action::Return(r) => Some(r),
            _ => outcome(settings, next, evs.drop_first()),
        }
    }
}

/// The supervisor of one run.
pub struct Supervisor {
    pub settings: RelaySettings,
    pub phase: Phase,
}

impl Supervisor {
    /// A supervisor for a run with these settings, before the engine exists.
    pub fn new(settings: RelaySettings) -> (r: Supervisor)
        ensures
            r.settings == settings,
            r.phase == Phase::Booting,
            phase_fits(r.settings, r.phase),
    {
        Supervisor { settings, phase: Phase::Booting }
    }

    /// Whether the run has produced its result.
    pub fn is_finished(&self) -> (r: bool)
        ensures
            r == (self.phase == Phase::Finished),
    {
        match self.phase {
            Phase::Finished => true,
            _ => false,
        }
    }

    /// Takes one observed event and says what to do next.
    pub fn on_event<E>(&mut self, ev: Event<E>) -> (a: Action<E>)
        ensures
            final(self).settings == old(self).settings,
            (final(self).phase, a) == step(old(self).settings, old(self).phase, ev),
            phase_fits(old(self).settings, old(self).phase) ==> phase_fits(
                final(self).settings,
                final(self).phase,
            ),
    {
        match self.phase {
            Phase::Booting => match ev {
                Event::EngineReady => {
                    self.phase = Phase::Running {
                        stream_pending: true,
                        datagram_pending: self.settings.enable_udp,
                    };
                    Action::Launch(LaunchPlan::for_settings(&self.settings))
                },
                Event::EngineFailed(e) => {
                    self.phase = Phase::Finished;
                    Action::Return(Err(e))
                },
                Event::TaskFinished(_, _) => Action::Wait,
            },
            Phase::Running { stream_pending, datagram_pending } => match ev {
                Event::TaskFinished(kind, res) => {
                    let is_stream = match kind {
                        TaskKind::Stream => true,
                        TaskKind::Datagram => false,
                    };
                    let pending = if is_stream { stream_pending } else { datagram_pending };
                    if !pending {
                        Action::Wait
                    } else {
                        match res {
                            Err(e) => {
                                self.phase = Phase::Finished;
                                Action::Return(Err(e))
                            },
                            Ok(_) => {
                                let sp = stream_pending && !is_stream;
                                let dp = datagram_pending && is_stream;
                                if !sp && !dp {
                                    self.phase = Phase::Finished;
                                    Action::Return(Ok(()))
                                } else {
                                    self.phase = Phase::Running {
                                        stream_pending: sp,
                                        datagram_pending: dp,
                                    };
                                    Action::Wait
                                }
                            },
                        }
                    }
                },
                _ => Action::Wait,
            },
            Phase::Finished => Action::Wait,
        }
    }
}

} // verus!
