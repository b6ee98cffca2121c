//! Properties of a run, proved over the decision function.
use vstd::prelude::*;
use crate::workload::{RelaySettings, TaskKind, Workload, holds_task, plan_of};
use crate::supervisor::{Action, Event, Phase, awaited, is_result_of, outcome, phase_fits, step};

verus! {

/// Unfolds `outcome` on a sequence that starts with a known event.
proof fn lemma_outcome_cons<E>(settings: RelaySettings, phase: Phase, ev: Event<E>, rest: Seq<Event<E>>)
    ensures
        outcome(settings, phase, seq![ev] + rest) == match step(settings, phase, ev).1 {
            Action::Return(r) => Some(r),
            _ => outcome(settings, step(settings, phase, ev).0, rest),
        },
{
    let evs = seq![ev] + rest;
    assert(evs[0] == ev);
    assert(evs.drop_first() =~= rest);
}

/// Every decision keeps the phase within what the settings allow.
pub proof fn lemma_step_keeps_phase_fit<E>(settings: RelaySettings, phase: Phase, ev: Event<E>)
    requires
        phase_fits(settings, phase),
    ensures
        phase_fits(settings, step(settings, phase, ev).0),
{
}

/// With the datagram relay disabled, no decision ever launches a datagram
/// task, and a datagram result (which cannot come) changes nothing.
pub proof fn lemma_stream_only_never_launches_datagram<E>(
    settings: RelaySettings,
    phase: Phase,
    ev: Event<E>,
)
    requires
        !settings.enable_udp,
        phase_fits(settings, phase),
    ensures
        match step(settings, phase, ev).1 {
            Action::Launch(plan) => plan.workload == Workload::StreamOnly && !holds_task(
                plan.workload,
                TaskKind::Datagram,
            ),
            _ => true,
        },
        is_result_of(ev, TaskKind::Datagram) ==> step(settings, phase, ev) == (
        phase,
        Action::<E>::Wait,
        ),
{
}

/// With the datagram relay enabled, the launch holds both relays, and both
/// share the one resolution cache, whose bound is the configured capacity.
pub proof fn lemma_dual_launch_shares_resolver<E>(settings: RelaySettings, phase: Phase, ev: Event<E>)
    requires
        settings.enable_udp,
    ensures
        match step(settings, phase, ev).1 {
            Action::Launch(plan) => {
                &&& plan == plan_of(settings)
                &&& plan.workload == Workload::StreamAndDatagram
                &&& holds_task(plan.workload, TaskKind::Stream)
                &&& holds_task(plan.workload, TaskKind::Datagram)
                &&& plan.resolver_capacity == settings.dns_cache_capacity
            },
            _ => true,
        },
{
}

/// A failing task ends the run at once with its error, whatever the other
/// task does afterwards.
pub proof fn lemma_fail_fast<E>(
    settings: RelaySettings,
    stream_pending: bool,
    datagram_pending: bool,
    kind: TaskKind,
    e: E,
    rest: Seq<Event<E>>,
)
    requires
        awaited(stream_pending, datagram_pending, kind),
    ensures
        outcome(
            settings,
            Phase::Running { stream_pending, datagram_pending },
            seq![Event::TaskFinished(kind, Err(e))] + rest,
        ) == Some(Err::<(), E>(e)),
{
    lemma_outcome_cons(
        settings,
        Phase::Running { stream_pending, datagram_pending },
        Event::TaskFinished(kind, Err(e)),
        rest,
    );
}

/// Once the stream relay has succeeded, the run goes on until the datagram
/// relay resolves, and ends with the datagram relay's result.
proof fn lemma_waits_for_datagram<E>(
    settings: RelaySettings,
    evs: Seq<Event<E>>,
    r: Result<(), E>,
    more: Seq<Event<E>>,
)
    requires
        forall|i: int| 0 <= i < evs.len() ==> !is_result_of(#[trigger] evs[i], TaskKind::Datagram),
    ensures
        outcome(settings, Phase::Running { stream_pending: false, datagram_pending: true }, evs)
            == None::<Result<(), E>>,
        outcome(
            settings,
            Phase::Running { stream_pending: false, datagram_pending: true },
            evs + seq![Event::TaskFinished(TaskKind::Datagram, r)] + more,
        ) == Some(r),
    decreases evs.len(),
{
    let phase = Phase::Running { stream_pending: false, datagram_pending: true };
    let last = Event::TaskFinished(TaskKind::Datagram, r);
    if evs.len() == 0 {
        assert(evs + seq![last] + more =~= seq![last] + more);
        lemma_outcome_cons(settings, phase, last, more);
        match r {
            Ok(u) => {
                assert(u == ());
                assert(step(settings, phase, last).1 == Action::Return(Ok::<(), E>(())));
            },
            Err(e) => {
                assert(step(settings, phase, last).1 == Action::Return(Err::<(), E>(e)));
            },
        }
    } else {
        let ev = evs[0];
        let tail = evs.drop_first();
        assert(!is_result_of(ev, TaskKind::Datagram));
        assert(step(settings, phase, ev) == (phase, Action::<E>::Wait));
        assert(evs =~= seq![ev] + tail);
        lemma_outcome_cons(settings, phase, ev, tail);
        assert(evs + seq![last] + more =~= seq![ev] + (tail + seq![last] + more));
        lemma_outcome_cons(settings, phase, ev, tail + seq![last] + more);
        assert forall|i: int| 0 <= i < tail.len() implies !is_result_of(
            #[trigger] tail[i],
            TaskKind::Datagram,
        ) by {
            assert(tail[i] == evs[i + 1]);
        }
        lemma_waits_for_datagram(settings, tail, r, more);
    }
}

/// With both relays running, a successful stream relay does not end the
/// run: it goes on for as long as the datagram relay has not resolved, and
/// ends with the datagram relay's result once it has.
pub proof fn lemma_success_needs_every_task<E>(
    settings: RelaySettings,
    evs: Seq<Event<E>>,
    r: Result<(), E>,
    more: Seq<Event<E>>,
)
    requires
        forall|i: int| 0 <= i < evs.len() ==> !is_result_of(#[trigger] evs[i], TaskKind::Datagram),
    ensures
        outcome(
            settings,
            Phase::Running { stream_pending: true, datagram_pending: true },
            seq![Event::TaskFinished(TaskKind::Stream, Ok(()))] + evs,
        ) == None::<Result<(), E>>,
        outcome(
            settings,
            Phase::Running { stream_pending: true, datagram_pending: true },
            seq![Event::TaskFinished(TaskKind::Stream, Ok(()))] + evs + seq![
                Event::TaskFinished(TaskKind::Datagram, r),
            ] + more,
        ) == Some(r),
{
    let phase = Phase::Running { stream_pending: true, datagram_pending: true };
    let first = Event::TaskFinished(TaskKind::Stream, Ok(()));
    let rest = evs + seq![Event::TaskFinished(TaskKind::Datagram, r)] + more;
    lemma_outcome_cons(settings, phase, first, evs);
    assert(seq![first] + evs + seq![Event::TaskFinished(TaskKind::Datagram, r)] + more =~= seq![
        first,
    ] + rest);
    lemma_outcome_cons(settings, phase, first, rest);
    lemma_waits_for_datagram(settings, evs, r, more);
}

/// When the execution engine cannot be built, the run returns exactly that
/// error, and no later event can launch a relay.
pub proof fn lemma_bootstrap_failure_is_fatal<E>(settings: RelaySettings, e: E, rest: Seq<Event<E>>)
    ensures
        step(settings, Phase::Booting, Event::EngineFailed(e)) == (
        Phase::Finished,
        Action::Return(Err::<(), E>(e)),
        ),
        outcome(settings, Phase::Booting, seq![Event::EngineFailed(e)] + rest) == Some(
            Err::<(), E>(e),
        ),
        forall|ev: Event<E>| #[trigger]
            step(settings, Phase::Finished, ev) == (Phase::Finished, Action::<E>::Wait),
{
    lemma_outcome_cons(settings, Phase::Booting, Event::EngineFailed(e), rest);
}

} // verus!
