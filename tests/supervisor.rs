use relay_server::supervisor::{Action, Event, Phase, Supervisor};
use relay_server::workload::{LaunchPlan, RelaySettings, TaskKind, Workload};

fn settings(enable_udp: bool, dns_cache_capacity: usize) -> RelaySettings {
    RelaySettings { enable_udp, dns_cache_capacity }
}

fn launched(a: Action<&'static str>) -> LaunchPlan {
    match a {
        Action::Launch(p) => p,
        other => panic!("expected a launch, got {:?}", other),
    }
}

fn is_wait(a: &Action<&'static str>) -> bool {
    matches!(a, Action::Wait)
}

fn returned(a: Action<&'static str>) -> Result<(), &'static str> {
    match a {
        Action::Return(r) => r,
        other => panic!("expected a result, got {:?}", other),
    }
}

#[test]
fn stream_only_launches_no_datagram_relay() {
    let mut s = Supervisor::new(settings(false, 256));
    let plan = launched(s.on_event(Event::EngineReady));
    assert_eq!(plan.workload, Workload::StreamOnly);
    assert!(!plan.workload.includes(TaskKind::Datagram));
    assert_eq!(plan.workload.tasks(), vec![TaskKind::Stream]);
    let a = s.on_event(Event::TaskFinished(TaskKind::Datagram, Err("stray")));
    assert!(is_wait(&a));
    assert_eq!(s.phase, Phase::Running { stream_pending: true, datagram_pending: false });
}

#[test]
fn dual_mode_launches_both_with_one_resolver() {
    let mut s = Supervisor::new(settings(true, 64));
    let plan = launched(s.on_event(Event::EngineReady));
    assert_eq!(plan.workload, Workload::StreamAndDatagram);
    assert_eq!(plan.workload.tasks(), vec![TaskKind::Stream, TaskKind::Datagram]);
    assert_eq!(plan.resolver_capacity, 64);
    assert_eq!(s.phase, Phase::Running { stream_pending: true, datagram_pending: true });
}

#[test]
fn stream_failure_ends_dual_run_at_once() {
    let mut s = Supervisor::new(settings(true, 8));
    launched(s.on_event(Event::EngineReady));
    let r = returned(s.on_event(Event::TaskFinished(TaskKind::Stream, Err("broken pipe"))));
    assert_eq!(r, Err("broken pipe"));
    assert!(s.is_finished());
}

#[test]
fn datagram_failure_ends_dual_run_at_once() {
    let mut s = Supervisor::new(settings(true, 8));
    launched(s.on_event(Event::EngineReady));
    let r = returned(s.on_event(Event::TaskFinished(TaskKind::Datagram, Err("bind failed"))));
    assert_eq!(r, Err("bind failed"));
    assert!(s.is_finished());
}

#[test]
fn stream_success_waits_for_datagram() {
    let mut s = Supervisor::new(settings(true, 8));
    launched(s.on_event(Event::EngineReady));
    assert!(is_wait(&s.on_event(Event::TaskFinished(TaskKind::Stream, Ok(())))));
    assert!(!s.is_finished());
    assert!(is_wait(&s.on_event(Event::TaskFinished(TaskKind::Stream, Err("late")))));
    assert!(!s.is_finished());
    let r = returned(s.on_event(Event::TaskFinished(TaskKind::Datagram, Err("timeout"))));
    assert_eq!(r, Err("timeout"));
}

#[test]
fn engine_failure_is_returned_and_nothing_launches() {
    let mut s = Supervisor::new(settings(true, 8));
    let r = returned(s.on_event(Event::EngineFailed("no epoll")));
    assert_eq!(r, Err("no epoll"));
    assert!(s.is_finished());
    assert!(is_wait(&s.on_event(Event::EngineReady)));
    assert!(is_wait(&s.on_event(Event::TaskFinished(TaskKind::Stream, Ok(())))));
    assert_eq!(s.phase, Phase::Finished);
}

#[test]
fn stream_only_run_returns_stream_error() {
    let mut s = Supervisor::new(settings(false, 256));
    let plan = launched(s.on_event(Event::EngineReady));
    assert_eq!(plan, LaunchPlan { workload: Workload::StreamOnly, resolver_capacity: 256 });
    let r = returned(s.on_event(Event::TaskFinished(TaskKind::Stream, Err("E"))));
    assert_eq!(r, Err("E"));
}

#[test]
fn dual_run_with_zero_capacity_succeeds_when_both_succeed() {
    let mut s = Supervisor::new(settings(true, 0));
    let plan = launched(s.on_event(Event::EngineReady));
    assert_eq!(plan, LaunchPlan { workload: Workload::StreamAndDatagram, resolver_capacity: 0 });
    assert!(is_wait(&s.on_event(Event::TaskFinished(TaskKind::Datagram, Ok(())))));
    let r = returned(s.on_event(Event::TaskFinished(TaskKind::Stream, Ok(()))));
    assert_eq!(r, Ok(()));
    assert!(s.is_finished());
}

#[test]
fn task_results_before_engine_are_ignored() {
    let mut s = Supervisor::new(settings(false, 1));
    assert!(is_wait(&s.on_event(Event::TaskFinished(TaskKind::Stream, Err("early")))));
    assert_eq!(s.phase, Phase::Booting);
}

#[test]
fn workload_follows_flag() {
    assert_eq!(Workload::from_flag(true), Workload::StreamAndDatagram);
    assert_eq!(Workload::from_flag(false), Workload::StreamOnly);
    assert!(Workload::StreamOnly.includes(TaskKind::Stream));
    assert!(Workload::StreamAndDatagram.includes(TaskKind::Datagram));
    let p = LaunchPlan::for_settings(&settings(true, usize::MAX));
    assert_eq!(p, LaunchPlan { workload: Workload::StreamAndDatagram, resolver_capacity: usize::MAX });
}
