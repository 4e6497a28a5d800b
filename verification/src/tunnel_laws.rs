//! What holds of the tunnel supervisor in every state.

use vstd::prelude::*;
use crate::error::AppErrorView;
use crate::tunnel::{Phase, Step, Supervisor, TunnelActionView, TunnelEvent, FALLBACK_PAUSE_MS};

verus! {

/// The supervisor after a step.
pub open spec fn after(s: Supervisor, step: Step) -> Supervisor {
    Supervisor {
        plans: s.plans,
        profile: s.profile,
        fallback: s.fallback,
        timeout_ms: s.timeout_ms,
        current: step.current,
        phase: step.phase,
        pid: step.pid,
        failure: step.failure,
    }
}

/// A step leaves a well-formed supervisor well-formed.
pub proof fn law_steps_keep_a_plan_in_progress(s: Supervisor, event: TunnelEvent)
    requires
        s.wf(),
    ensures
        after(s, s.step_spec(event)).wf(),
{
}

/// A tunnel on a local port that already accepts connections fails at once
/// with `PortAlreadyInUse`, and the answer to that test is not to launch
/// the agent.
pub proof fn law_busy_port_is_refused(s: Supervisor)
    requires
        s.wf(),
        s.phase == Phase::CheckingPort,
    ensures
        s.step_spec(TunnelEvent::PortTested { open: true }).action == TunnelActionView::Failed(
            AppErrorView::PortAlreadyInUse(s.plan().local_port),
        ),
        s.step_spec(TunnelEvent::PortTested { open: true }).phase == Phase::Failed,
{
}

/// The agent is launched only in answer to a test that found the local
/// port free, or, where several relays are tried in turn, to the pause
/// after a relay that was torn down.
pub proof fn law_agent_is_launched_only_on_a_free_port(s: Supervisor, event: TunnelEvent)
    requires
        s.wf(),
        s.step_spec(event).action is Spawn,
    ensures
        ({
            ||| s.phase == Phase::CheckingPort && event == (TunnelEvent::PortTested { open: false })
            ||| s.phase == Phase::Pausing && event is Slept
        }),
{
}

/// Once a tunnel has failed or was stopped, nothing is asked for any more,
/// and nothing changes.
pub proof fn law_failed_and_stopped_are_final(s: Supervisor, event: TunnelEvent)
    requires
        s.phase == Phase::Failed || s.phase == Phase::Stopped,
    ensures
        s.step_spec(event) == s.stay(),
{
}

/// An agent whose local port opened but whose remote end did not answer the
/// probe is terminated, and only then the failure is reported: the very
/// next action is to terminate the process that was launched, and once that
/// is done a single tunnel fails with `RemoteUnreachable`.
pub proof fn law_silent_remote_is_torn_down(s: Supervisor)
    requires
        s.wf(),
        s.phase == Phase::AwaitingRemote,
    ensures
        ({
            let silent = s.step_spec(TunnelEvent::RemoteProbed { latency_ms: None });
            let then = after(s, silent).step_spec(TunnelEvent::Killed);
            &&& silent.action == (TunnelActionView::Kill { pid: s.pid })
            &&& silent.phase == Phase::TearingDown
            &&& !s.fallback ==> then.phase == Phase::Failed && then.action
                == TunnelActionView::Failed(AppErrorView::RemoteUnreachable(s.plan().local_port))
            &&& s.fallback && s.current + 1 == s.plans@.len() ==> then.phase == Phase::Failed
                && then.action == TunnelActionView::Failed(
                AppErrorView::AggregateFallbackFailure {
                    attempts: s.plans@.len() as usize,
                    host: crate::tunnel::plan_host(s.plan()),
                    port: s.plan().remote_port,
                },
            )
            &&& s.fallback && s.current + 1 < s.plans@.len() ==> then.phase == Phase::Pausing
                && then.action == (TunnelActionView::Sleep { millis: FALLBACK_PAUSE_MS })
        }),
{
}

/// A local port that is still closed when the time allowed is over has the
/// agent terminated, and a single tunnel then fails with `PortNeverOpened`.
pub proof fn law_closed_port_is_torn_down(s: Supervisor, elapsed_ms: u64)
    requires
        s.wf(),
        s.phase == Phase::BetweenPolls,
        elapsed_ms >= s.timeout_ms,
    ensures
        ({
            let late = s.step_spec(TunnelEvent::Slept { elapsed_ms });
            let then = after(s, late).step_spec(TunnelEvent::Killed);
            &&& late.action == (TunnelActionView::Kill { pid: s.pid })
            &&& late.phase == Phase::TearingDown
            &&& !s.fallback ==> then.phase == Phase::Failed && then.action
                == TunnelActionView::Failed(AppErrorView::PortNeverOpened(s.plan().local_port))
        }),
{
}

/// A failure of a launched agent is reported only after the agent was asked
/// to terminate: a probe failure comes out of the teardown alone.
pub proof fn law_probe_failures_follow_teardown(s: Supervisor, event: TunnelEvent)
    requires
        s.wf(),
        s.step_spec(event).action matches TunnelActionView::Failed(e) && (e is PortNeverOpened || e
            is RemoteUnreachable || e is AggregateFallbackFailure),
    ensures
        s.phase == Phase::TearingDown,
        event is Killed,
{
}

/// A tunnel becomes active only on a remote answer to the probe, and its
/// handle then carries the process id of the agent, the plan's ports, and
/// the measured latency.
pub proof fn law_active_means_answered(s: Supervisor, event: TunnelEvent)
    requires
        s.wf(),
        s.step_spec(event).phase == Phase::Active,
        s.phase != Phase::Active,
    ensures
        s.phase == Phase::AwaitingRemote,
        event matches TunnelEvent::RemoteProbed { latency_ms: Some(ms) } && s.step_spec(
            event,
        ).action == TunnelActionView::Established(
            crate::tunnel::plan_handle(s.plan(), s.pid, ms),
        ),
{
}

} // verus!
