//! The tunnel supervisor: the decisions that start, probe and stop a
//! forwarding session.
//!
//! The supervisor performs nothing itself. Each step takes what just
//! happened and returns what to do next; the caller launches the agent,
//! tests ports, sleeps and sends signals, and reports back. The spawned
//! process belongs to the operating system: the supervisor keeps only its
//! process id.

use vstd::prelude::*;
use vstd::string::StringExecFns;
use crate::commands::{opt_str, session_command, start_direct_tunnel, start_remote_tunnel};
use crate::error::{AppError, AppErrorView};
use crate::inventory::{count_matches, find_instance_by_name, first_named};
use crate::models::{
    opt_text, texts, Address, Instance, Inventory, SsmStatus, TunnelProcess, TunnelProcessView,
    TunnelTarget, TunnelTargetView,
};
use crate::resolver::{
    bastion_like, find_balancer_path, fronting_path, host_of, is_online_bastion, port_for_scheme,
    resolve_dns_to_target, resolve_path, scheme_port, strip_url_to_host,
};

verus! {

/// How long a single tunnel may take to open its local port.
pub const PORT_TIMEOUT_MS: u64 = 20000;

/// How long each relay may take to open the local port when several are
/// tried in turn.
pub const FALLBACK_PORT_TIMEOUT_MS: u64 = 10000;

/// The pause between two tests of the local port.
pub const POLL_INTERVAL_MS: u64 = 500;

/// The pause between a failed relay and the next.
pub const FALLBACK_PAUSE_MS: u64 = 2000;

/// How long the remote end has to answer the probe.
pub const REMOTE_PROBE_WINDOW_MS: u64 = 5000;

/// The name by which forwarding-agent processes are found.
pub open spec fn agent_name() -> Seq<char> {
    "session-manager-plugin"@
}

/// What one forwarding session is started towards.
#[derive(Debug, Clone)]
pub struct TunnelPlan {
    /// The instance that hosts the session: the target itself, or a relay.
    pub instance_id: String,
    pub instance_name: String,
    /// The host that a relay forwards to; none for the instance itself.
    pub remote_host: Option<String>,
    pub local_port: u16,
    pub remote_port: u16,
}

pub struct TunnelPlanView {
    pub instance_id: Seq<char>,
    pub instance_name: Seq<char>,
    pub remote_host: Option<Seq<char>>,
    pub local_port: u16,
    pub remote_port: u16,
}

impl View for TunnelPlan {
    type V = TunnelPlanView;

    open spec fn view(&self) -> TunnelPlanView {
        TunnelPlanView {
            instance_id: self.instance_id@,
            instance_name: self.instance_name@,
            remote_host: opt_text(self.remote_host),
            local_port: self.local_port,
            remote_port: self.remote_port,
        }
    }
}

/// The lifecycle of a tunnel.
#[derive(Debug, Clone, Copy, PartialEq, Eq, Structural)]
pub enum TunnelState {
    Starting,
    Probing,
    Active,
    Stopped,
    Failed,
}

/// Where exactly in its lifecycle a tunnel is: what the supervisor waits for.
#[derive(Debug, Clone, Copy, PartialEq, Eq, Structural)]
pub enum Phase {
    /// Waits to hear whether the local port is free.
    CheckingPort,
    /// Waits for the agent to be launched.
    Spawning,
    /// Waits for a test of the local port.
    AwaitingPort,
    /// Waits for the pause between two tests to pass.
    BetweenPolls,
    /// Waits for the remote end to answer the probe.
    AwaitingRemote,
    /// Waits for the agent to be terminated after a failure.
    TearingDown,
    /// Waits for the pause before the next relay to pass.
    Pausing,
    Active,
    Stopped,
    Failed,
}

/// Why a started agent is torn down.
#[derive(Debug, Clone, Copy, PartialEq, Eq, Structural)]
pub enum Failure {
    PortNeverOpened,
    RemoteUnreachable,
}

/// What the caller reports to the supervisor.
#[derive(Debug)]
pub enum TunnelEvent {
    /// The local port was tested: it accepts connections, or not.
    PortTested { open: bool },
    /// The agent runs under this process id.
    Spawned { pid: u32 },
    /// The agent could not be launched.
    SpawnFailed { message: String },
    /// A pause has passed; so much time has gone by since the agent was
    /// launched.
    Slept { elapsed_ms: u64 },
    /// The probe was sent: the remote end answered after so many
    /// milliseconds, or not within the window.
    RemoteProbed { latency_ms: Option<u64> },
    /// The termination signal was sent.
    Killed,
    /// The tunnel is to be stopped.
    StopRequested,
}

/// What the supervisor asks the caller to do.
#[derive(Debug)]
pub enum TunnelAction {
    TestPort { port: u16 },
    Spawn { command: Vec<String> },
    Sleep { millis: u64 },
    ProbeRemote { port: u16 },
    Kill { pid: u32 },
    /// Terminate every process of this name.
    KillByName { name: String },
    /// The tunnel is confirmed reachable end to end.
    Established(TunnelProcess),
    /// The tunnel failed for good.
    Failed(AppError),
    Nothing,
}

pub enum TunnelActionView {
    TestPort { port: u16 },
    Spawn { command: Seq<Seq<char>> },
    Sleep { millis: u64 },
    ProbeRemote { port: u16 },
    Kill { pid: u32 },
    KillByName { name: Seq<char> },
    Established(TunnelProcessView),
    Failed(AppErrorView),
    Nothing,
}

impl View for TunnelAction {
    type V = TunnelActionView;

    open spec fn view(&self) -> TunnelActionView {
        match self {
            TunnelAction::TestPort { port } => TunnelActionView::TestPort { port: *port },
            TunnelAction::Spawn { command } => TunnelActionView::Spawn { command: texts(command@) },
            TunnelAction::Sleep { millis } => TunnelActionView::Sleep { millis: *millis },
            TunnelAction::ProbeRemote { port } => TunnelActionView::ProbeRemote { port: *port },
            TunnelAction::Kill { pid } => TunnelActionView::Kill { pid: *pid },
            TunnelAction::KillByName { name } => TunnelActionView::KillByName { name: name@ },
            TunnelAction::Established(handle) => TunnelActionView::Established(handle@),
            TunnelAction::Failed(e) => TunnelActionView::Failed(e@),
            TunnelAction::Nothing => TunnelActionView::Nothing,
        }
    }
}

/// The supervisor of one tunnel: the relays to try, and how far it has come.
#[derive(Debug)]
pub struct Supervisor {
    /// What to start, in the order to try it. Never empty.
    pub plans: Vec<TunnelPlan>,
    pub profile: Option<String>,
    /// Whether a failed plan is followed by the next one.
    pub fallback: bool,
    pub timeout_ms: u64,
    /// Index of the plan in progress.
    pub current: usize,
    pub phase: Phase,
    /// Process id of the agent, once it is launched.
    pub pid: u32,
    /// Why the agent is torn down, while it is.
    pub failure: Failure,
}

/// What one step leads to.
pub struct Step {
    pub phase: Phase,
    pub current: usize,
    pub pid: u32,
    pub failure: Failure,
    pub action: TunnelActionView,
}

/// The lifecycle state that a phase belongs to.
pub open spec fn state_of(phase: Phase) -> TunnelState {
    match phase {
        Phase::CheckingPort | Phase::Spawning => TunnelState::Starting,
        Phase::AwaitingPort | Phase::BetweenPolls | Phase::AwaitingRemote | Phase::TearingDown
        | Phase::Pausing => TunnelState::Probing,
        Phase::Active => TunnelState::Active,
        Phase::Stopped => TunnelState::Stopped,
        Phase::Failed => TunnelState::Failed,
    }
}

/// The command line that launches the agent for a plan.
pub open spec fn plan_command(plan: TunnelPlan, profile: Option<String>) -> Seq<Seq<char>> {
    session_command(
        plan.instance_id@,
        opt_text(plan.remote_host),
        plan.local_port,
        plan.remote_port,
        opt_text(profile),
    )
}

/// The handle of an established tunnel.
pub open spec fn plan_handle(plan: TunnelPlan, pid: u32, latency_ms: u64) -> TunnelProcessView {
    TunnelProcessView {
        pid,
        local_port: plan.local_port,
        remote_port: plan.remote_port,
        remote_host: opt_text(plan.remote_host),
        instance_id: plan.instance_id@,
        instance_name: plan.instance_name@,
        port_open: true,
        latency_ms: Some(latency_ms),
    }
}

/// The host that a plan ends at: the remote host, or the instance itself.
pub open spec fn plan_host(plan: TunnelPlan) -> Seq<char> {
    match plan.remote_host {
        Some(h) => h@,
        None => plan.instance_name@,
    }
}

impl Supervisor {
    /// The supervisor has a plan in progress.
    pub open spec fn wf(&self) -> bool {
        &&& self.plans@.len() > 0
        &&& self.current < self.plans@.len()
    }

    pub open spec fn plan(&self) -> TunnelPlan {
        self.plans@[self.current as int]
    }

    /// The failure that is reported once the agent of the last plan is
    /// torn down.
    pub open spec fn final_error(&self) -> AppErrorView {
        if self.fallback {
            AppErrorView::AggregateFallbackFailure {
                attempts: self.plans@.len() as usize,
                host: plan_host(self.plan()),
                port: self.plan().remote_port,
            }
        } else {
            match self.failure {
                Failure::PortNeverOpened => AppErrorView::PortNeverOpened(self.plan().local_port),
                Failure::RemoteUnreachable => AppErrorView::RemoteUnreachable(
                    self.plan().local_port,
                ),
            }
        }
    }

    /// A step that changes nothing and asks for nothing.
    pub open spec fn stay(&self) -> Step {
        Step {
            phase: self.phase,
            current: self.current,
            pid: self.pid,
            failure: self.failure,
            action: TunnelActionView::Nothing,
        }
    }

    /// A step to `phase` with `action`.
    pub open spec fn go(&self, phase: Phase, action: TunnelActionView) -> Step {
        Step { phase, current: self.current, pid: self.pid, failure: self.failure, action }
    }

    /// What the supervisor does when `event` is reported: the transition
    /// relation of the tunnel's lifecycle.
    pub open spec fn step_spec(&self, event: TunnelEvent) -> Step {
        let port = self.plan().local_port;
        match self.phase {
            Phase::CheckingPort => match event {
                TunnelEvent::PortTested { open } => if open {
                    self.go(
                        Phase::Failed,
                        TunnelActionView::Failed(AppErrorView::PortAlreadyInUse(port)),
                    )
                } else {
                    self.go(
                        Phase::Spawning,
                        TunnelActionView::Spawn {
                            command: plan_command(self.plan(), self.profile),
                        },
                    )
                },
                _ => self.stay(),
            },
            Phase::Spawning => match event {
                TunnelEvent::Spawned { pid } => Step {
                    phase: Phase::AwaitingPort,
                    current: self.current,
                    pid,
                    failure: self.failure,
                    action: TunnelActionView::TestPort { port },
                },
                TunnelEvent::SpawnFailed { message } => self.go(
                    Phase::Failed,
                    TunnelActionView::Failed(AppErrorView::Io(message@)),
                ),
                _ => self.stay(),
            },
            Phase::AwaitingPort => match event {
                TunnelEvent::PortTested { open } => if open {
                    self.go(Phase::AwaitingRemote, TunnelActionView::ProbeRemote { port })
                } else {
                    self.go(
                        Phase::BetweenPolls,
                        TunnelActionView::Sleep { millis: POLL_INTERVAL_MS },
                    )
                },
                _ => self.stay(),
            },
            Phase::BetweenPolls => match event {
                TunnelEvent::Slept { elapsed_ms } => if elapsed_ms < self.timeout_ms {
                    self.go(Phase::AwaitingPort, TunnelActionView::TestPort { port })
                } else {
                    Step {
                        phase: Phase::TearingDown,
                        current: self.current,
                        pid: self.pid,
                        failure: Failure::PortNeverOpened,
                        action: TunnelActionView::Kill { pid: self.pid },
                    }
                },
                _ => self.stay(),
            },
            Phase::AwaitingRemote => match event {
                TunnelEvent::RemoteProbed { latency_ms } => match latency_ms {
                    Some(ms) => self.go(
                        Phase::Active,
                        TunnelActionView::Established(plan_handle(self.plan(), self.pid, ms)),
                    ),
                    None => Step {
                        phase: Phase::TearingDown,
                        current: self.current,
                        pid: self.pid,
                        failure: Failure::RemoteUnreachable,
                        action: TunnelActionView::Kill { pid: self.pid },
                    },
                },
                _ => self.stay(),
            },
            Phase::TearingDown => match event {
                TunnelEvent::Killed => if self.fallback && self.current + 1 < self.plans@.len() {
                    self.go(Phase::Pausing, TunnelActionView::Sleep { millis: FALLBACK_PAUSE_MS })
                } else {
                    self.go(Phase::Failed, TunnelActionView::Failed(self.final_error()))
                },
                _ => self.stay(),
            },
            Phase::Pausing => match event {
                TunnelEvent::Slept { elapsed_ms } => if self.current + 1 < self.plans@.len() {
                    Step {
                        phase: Phase::Spawning,
                        current: (self.current + 1) as usize,
                        pid: self.pid,
                        failure: self.failure,
                        action: TunnelActionView::Spawn {
                            command: plan_command(
                                self.plans@[self.current + 1],
                                self.profile,
                            ),
                        },
                    }
                } else {
                    self.stay()
                },
                _ => self.stay(),
            },
            Phase::Active => match event {
                TunnelEvent::StopRequested => self.go(
                    Phase::Stopped,
                    TunnelActionView::Kill { pid: self.pid },
                ),
                _ => self.stay(),
            },
            Phase::Stopped => self.stay(),
            Phase::Failed => self.stay(),
        }
    }

    /// The lifecycle state of the tunnel.
    pub fn state(&self) -> (s: TunnelState)
        ensures
            s == state_of(self.phase),
    {
        match self.phase {
            Phase::CheckingPort => TunnelState::Starting,
            Phase::Spawning => TunnelState::Starting,
            Phase::AwaitingPort => TunnelState::Probing,
            Phase::BetweenPolls => TunnelState::Probing,
            Phase::AwaitingRemote => TunnelState::Probing,
            Phase::TearingDown => TunnelState::Probing,
            Phase::Pausing => TunnelState::Probing,
            Phase::Active => TunnelState::Active,
            Phase::Stopped => TunnelState::Stopped,
            Phase::Failed => TunnelState::Failed,
        }
    }

    /// A supervisor that has done nothing yet.
    pub fn new(plans: Vec<TunnelPlan>, profile: Option<String>, fallback: bool, timeout_ms: u64) -> (s:
        Supervisor)
        requires
            plans@.len() > 0,
        ensures
            s.wf(),
            s.plans == plans,
            s.profile == profile,
            s.fallback == fallback,
            s.timeout_ms == timeout_ms,
            s.current == 0,
            s.phase == Phase::CheckingPort,
            s.pid == 0,
            s.failure == Failure::PortNeverOpened,
    {
        Supervisor {
            plans,
            profile,
            fallback,
            timeout_ms,
            current: 0,
            phase: Phase::CheckingPort,
            pid: 0,
            failure: Failure::PortNeverOpened,
        }
    }

    /// What to do first: test whether the local port is free.
    pub fn begin(&self) -> (action: TunnelAction)
        requires
            self.wf(),
        ensures
            action@ == (TunnelActionView::TestPort { port: self.plan().local_port }),
    {
        TunnelAction::TestPort { port: self.plans[self.current].local_port }
    }

    fn launch(&self, index: usize) -> (action: TunnelAction)
        requires
            index < self.plans@.len(),
        ensures
            action@ == (TunnelActionView::Spawn {
                command: plan_command(self.plans@[index as int], self.profile),
            }),
    {
        let plan = &self.plans[index];
        let profile = match &self.profile {
            Some(p) => Some(p.as_str()),
            None => None,
        };
        let command = match &plan.remote_host {
            Some(host) => start_remote_tunnel(
                plan.instance_id.as_str(),
                host.as_str(),
                plan.local_port,
                plan.remote_port,
                profile,
            ),
            None => start_direct_tunnel(
                plan.instance_id.as_str(),
                plan.local_port,
                plan.remote_port,
                profile,
            ),
        };
        TunnelAction::Spawn { command }
    }

    fn handle(&self, latency_ms: u64) -> (handle: TunnelProcess)
        requires
            self.wf(),
        ensures
            handle@ == plan_handle(self.plan(), self.pid, latency_ms),
    {
        let plan = &self.plans[self.current];
        TunnelProcess {
            pid: self.pid,
            local_port: plan.local_port,
            remote_port: plan.remote_port,
            remote_host: match &plan.remote_host {
                Some(h) => Some(h.clone()),
                None => None,
            },
            instance_id: plan.instance_id.clone(),
            instance_name: plan.instance_name.clone(),
            port_open: true,
            latency_ms: Some(latency_ms),
        }
    }

    fn last_error(&self) -> (e: AppError)
        requires
            self.wf(),
        ensures
            e@ == self.final_error(),
    {
        let plan = &self.plans[self.current];
        if self.fallback {
            let host = match &plan.remote_host {
                Some(h) => h.clone(),
                None => plan.instance_name.clone(),
            };
            AppError::AggregateFallbackFailure {
                attempts: self.plans.len(),
                host,
                port: plan.remote_port,
            }
        } else {
            match self.failure {
                Failure::PortNeverOpened => AppError::PortNeverOpened(plan.local_port),
                Failure::RemoteUnreachable => AppError::RemoteUnreachable(plan.local_port),
            }
        }
    }

    /// Takes what happened and says what to do next.
    pub fn step(&mut self, event: TunnelEvent) -> (action: TunnelAction)
        requires
            old(self).wf(),
        ensures
            final(self).wf(),
            final(self).plans == old(self).plans,
            final(self).profile == old(self).profile,
            final(self).fallback == old(self).fallback,
            final(self).timeout_ms == old(self).timeout_ms,
            final(self).phase == old(self).step_spec(event).phase,
            final(self).current == old(self).step_spec(event).current,
            final(self).pid == old(self).step_spec(event).pid,
            final(self).failure == old(self).step_spec(event).failure,
            action@ == old(self).step_spec(event).action,
    {
        let port = self.plans[self.current].local_port;
        match self.phase {
            Phase::CheckingPort => match event {
                TunnelEvent::PortTested { open } => {
                    if open {
                        self.phase = Phase::Failed;
                        TunnelAction::Failed(AppError::PortAlreadyInUse(port))
                    } else {
                        self.phase = Phase::Spawning;
                        self.launch(self.current)
                    }
                },
                _ => TunnelAction::Nothing,
            },
            Phase::Spawning => match event {
                TunnelEvent::Spawned { pid } => {
                    self.pid = pid;
                    self.phase = Phase::AwaitingPort;
                    TunnelAction::TestPort { port }
                },
                TunnelEvent::SpawnFailed { message } => {
                    self.phase = Phase::Failed;
                    TunnelAction::Failed(AppError::Io(message))
                },
                _ => TunnelAction::Nothing,
            },
            Phase::AwaitingPort => match event {
                TunnelEvent::PortTested { open } => {
                    if open {
                        self.phase = Phase::AwaitingRemote;
                        TunnelAction::ProbeRemote { port }
                    } else {
                        self.phase = Phase::BetweenPolls;
                        TunnelAction::Sleep { millis: POLL_INTERVAL_MS }
                    }
                },
                _ => TunnelAction::Nothing,
            },
            Phase::BetweenPolls => match event {
                TunnelEvent::Slept { elapsed_ms } => {
                    if elapsed_ms < self.timeout_ms {
                        self.phase = Phase::AwaitingPort;
                        TunnelAction::TestPort { port }
                    } else {
                        self.phase = Phase::TearingDown;
                        self.failure = Failure::PortNeverOpened;
                        TunnelAction::Kill { pid: self.pid }
                    }
                },
                _ => TunnelAction::Nothing,
            },
            Phase::AwaitingRemote => match event {
                TunnelEvent::RemoteProbed { latency_ms } => match latency_ms {
                    Some(ms) => {
                        self.phase = Phase::Active;
                        TunnelAction::Established(self.handle(ms))
                    },
                    None => {
                        self.phase = Phase::TearingDown;
                        self.failure = Failure::RemoteUnreachable;
                        TunnelAction::Kill { pid: self.pid }
                    },
                },
                _ => TunnelAction::Nothing,
            },
            Phase::TearingDown => match event {
                TunnelEvent::Killed => {
                    if self.fallback && self.current < self.plans.len() - 1 {
                        self.phase = Phase::Pausing;
                        TunnelAction::Sleep { millis: FALLBACK_PAUSE_MS }
                    } else {
                        let e = self.last_error();
                        self.phase = Phase::Failed;
                        TunnelAction::Failed(e)
                    }
                },
                _ => TunnelAction::Nothing,
            },
            Phase::Pausing => match event {
                TunnelEvent::Slept { elapsed_ms } => {
                    if self.current < self.plans.len() - 1 {
                        self.current = self.current + 1;
                        self.phase = Phase::Spawning;
                        self.launch(self.current)
                    } else {
                        TunnelAction::Nothing
                    }
                },
                _ => TunnelAction::Nothing,
            },
            Phase::Active => match event {
                TunnelEvent::StopRequested => {
                    self.phase = Phase::Stopped;
                    TunnelAction::Kill { pid: self.pid }
                },
                _ => TunnelAction::Nothing,
            },
            Phase::Stopped => TunnelAction::Nothing,
            Phase::Failed => TunnelAction::Nothing,
        }
    }
}

// ── Starting tunnels ─────────────────────────────────────────────────────

/// The views of a list of plans.
pub open spec fn plan_views(plans: Seq<TunnelPlan>) -> Seq<TunnelPlanView> {
    Seq::new(plans.len(), |i: int| plans[i]@)
}

/// The supervisor has done nothing yet, and has these plans and settings.
pub open spec fn is_fresh(
    s: Supervisor,
    plans: Seq<TunnelPlanView>,
    profile: Option<Seq<char>>,
    fallback: bool,
    timeout_ms: u64,
) -> bool {
    &&& s.wf()
    &&& plan_views(s.plans@) == plans
    &&& opt_text(s.profile) == profile
    &&& s.fallback == fallback
    &&& s.timeout_ms == timeout_ms
    &&& s.current == 0
    &&& s.phase == Phase::CheckingPort
    &&& s.pid == 0
    &&& s.failure == Failure::PortNeverOpened
}

/// The supervisor has done nothing yet and has one plan, which is not
/// followed by another.
pub open spec fn is_single(s: Supervisor, plan: TunnelPlanView, profile: Option<Seq<char>>) -> bool {
    is_fresh(s, seq![plan], profile, false, PORT_TIMEOUT_MS)
}

fn own_profile(profile: Option<&str>) -> (r: Option<String>)
    ensures
        opt_text(r) == opt_str(profile),
{
    match profile {
        Some(p) => Some(String::from_str(p)),
        None => None,
    }
}

fn single(plan: TunnelPlan, profile: Option<&str>) -> (s: Supervisor)
    ensures
        is_single(s, plan@, opt_str(profile)),
{
    let mut plans: Vec<TunnelPlan> = Vec::new();
    plans.push(plan);
    assert(plan_views(plans@) =~= seq![plan@]);
    Supervisor::new(plans, own_profile(profile), false, PORT_TIMEOUT_MS)
}

/// A tunnel through a given instance to a host.
pub fn start_remote_tunnel_via_instance(
    instance_id: &str,
    instance_name: &str,
    host: &str,
    local_port: u16,
    remote_port: u16,
    profile: Option<&str>,
) -> (s: Supervisor)
    ensures
        is_single(
            s,
            TunnelPlanView {
                instance_id: instance_id@,
                instance_name: instance_name@,
                remote_host: Some(host@),
                local_port,
                remote_port,
            },
            opt_str(profile),
        ),
{
    single(
        TunnelPlan {
            instance_id: String::from_str(instance_id),
            instance_name: String::from_str(instance_name),
            remote_host: Some(String::from_str(host)),
            local_port,
            remote_port,
        },
        profile,
    )
}

/// A tunnel to a port of the only instance whose name holds the pattern.
pub fn start_tunnel_by_pattern(
    pattern: &str,
    local_port: u16,
    remote_port: u16,
    instances: &[Instance],
    profile: Option<&str>,
) -> (r: Result<Supervisor, AppError>)
    ensures
        match r {
            Ok(s) => {
                let i = first_named(instances@, pattern@, 0);
                &&& count_matches(instances@, pattern@, instances.len() as int) == 1
                &&& 0 <= i < instances.len()
                &&& is_single(
                    s,
                    TunnelPlanView {
                        instance_id: instances@[i].id@,
                        instance_name: instances@[i].name@,
                        remote_host: None,
                        local_port,
                        remote_port,
                    },
                    opt_str(profile),
                )
            },
            Err(e) => {
                let n = count_matches(instances@, pattern@, instances.len() as int);
                &&& n != 1
                &&& n == 0 ==> e@ == AppErrorView::NoInstance(pattern@)
                &&& n > 1 ==> e@ == (AppErrorView::MultipleInstances {
                    pattern: pattern@,
                    matches: n as usize,
                })
            },
        },
{
    match find_instance_by_name(pattern, instances) {
        Ok(inst) => Ok(
            single(
                TunnelPlan {
                    instance_id: inst.id.clone(),
                    instance_name: inst.name.clone(),
                    remote_host: None,
                    local_port,
                    remote_port,
                },
                profile,
            ),
        ),
        Err(e) => Err(e),
    }
}

/// A tunnel to a host through the only instance whose name holds the
/// pattern.
pub fn start_remote_tunnel_via_pattern(
    bastion_pattern: &str,
    host: &str,
    local_port: u16,
    remote_port: u16,
    instances: &[Instance],
    profile: Option<&str>,
) -> (r: Result<Supervisor, AppError>)
    ensures
        match r {
            Ok(s) => {
                let i = first_named(instances@, bastion_pattern@, 0);
                &&& count_matches(instances@, bastion_pattern@, instances.len() as int) == 1
                &&& 0 <= i < instances.len()
                &&& is_single(
                    s,
                    TunnelPlanView {
                        instance_id: instances@[i].id@,
                        instance_name: instances@[i].name@,
                        remote_host: Some(host@),
                        local_port,
                        remote_port,
                    },
                    opt_str(profile),
                )
            },
            Err(e) => {
                let n = count_matches(instances@, bastion_pattern@, instances.len() as int);
                &&& n != 1
                &&& n == 0 ==> e@ == AppErrorView::NoInstance(bastion_pattern@)
                &&& n > 1 ==> e@ == (AppErrorView::MultipleInstances {
                    pattern: bastion_pattern@,
                    matches: n as usize,
                })
            },
        },
{
    match find_instance_by_name(bastion_pattern, instances) {
        Ok(inst) => Ok(
            single(
                TunnelPlan {
                    instance_id: inst.id.clone(),
                    instance_name: inst.name.clone(),
                    remote_host: Some(String::from_str(host)),
                    local_port,
                    remote_port,
                },
                profile,
            ),
        ),
        Err(e) => Err(e),
    }
}

/// The plan that follows a resolution path, on the ports asked for.
pub open spec fn plan_for(path: TunnelTargetView, local_port: u16, remote_port: u16)
    -> TunnelPlanView {
    match path {
        TunnelTargetView::Ec2 { instance_id, name } => TunnelPlanView {
            instance_id,
            instance_name: name,
            remote_host: None,
            local_port,
            remote_port,
        },
        TunnelTargetView::RemoteViaBastion {
            bastion_id,
            bastion_name,
            target_host,
            target_port,
        } => TunnelPlanView {
            instance_id: bastion_id,
            instance_name: bastion_name,
            remote_host: Some(target_host),
            local_port,
            remote_port,
        },
    }
}

fn plan_of(path: TunnelTarget, local_port: u16, remote_port: u16) -> (plan: TunnelPlan)
    ensures
        plan@ == plan_for(path@, local_port, remote_port),
{
    match path {
        TunnelTarget::Ec2 { instance_id, name } => TunnelPlan {
            instance_id,
            instance_name: name,
            remote_host: None,
            local_port,
            remote_port,
        },
        TunnelTarget::RemoteViaBastion {
            bastion_id,
            bastion_name,
            target_host,
            target_port,
        } => TunnelPlan {
            instance_id: bastion_id,
            instance_name: bastion_name,
            remote_host: Some(target_host),
            local_port,
            remote_port,
        },
    }
}

/// A tunnel along the resolution path of a host or URL, to `remote_port`.
/// Among a load balancer's targets only those on `remote_port` count.
pub fn start_dns_tunnel(
    url: &str,
    local_port: u16,
    remote_port: u16,
    resolved: &[Address],
    inventory: &Inventory,
    profile: Option<&str>,
) -> (r: Result<Supervisor, AppError>)
    ensures
        match r {
            Ok(s) => resolve_path(url@, Some(remote_port), resolved@, *inventory) matches Ok(path)
                && is_single(s, plan_for(path, local_port, remote_port), opt_str(profile)),
            Err(e) => resolve_path(url@, Some(remote_port), resolved@, *inventory) == Err::<
                TunnelTargetView,
                AppErrorView,
            >(e@),
        },
{
    match resolve_dns_to_target(url, Some(remote_port), resolved, inventory) {
        Ok(path) => Ok(single(plan_of(path, local_port, remote_port), profile)),
        Err(e) => Err(e),
    }
}

/// One plan for each online bastion among the first `n` instances, in order.
pub open spec fn bastion_plans(
    instances: Seq<Instance>,
    n: int,
    host: Seq<char>,
    local_port: u16,
    remote_port: u16,
) -> Seq<TunnelPlanView>
    decreases n,
{
    if n <= 0 {
        Seq::empty()
    } else if is_online_bastion(instances[n - 1]) {
        bastion_plans(instances, n - 1, host, local_port, remote_port).push(
            TunnelPlanView {
                instance_id: instances[n - 1].id@,
                instance_name: instances[n - 1].name@,
                remote_host: Some(host),
                local_port,
                remote_port,
            },
        )
    } else {
        bastion_plans(instances, n - 1, host, local_port, remote_port)
    }
}

/// A tunnel to the host of a URL through whichever online bastion works:
/// each is tried in turn, on the port of the URL's scheme. `NoPathFound` if
/// no bastion is online.
pub fn start_url_tunnel_via_any_bastion(
    url: &str,
    local_port: u16,
    instances: &[Instance],
    profile: Option<&str>,
) -> (r: Result<Supervisor, AppError>)
    ensures
        ({
            let plans = bastion_plans(
                instances@,
                instances.len() as int,
                host_of(url@),
                local_port,
                scheme_port(url@),
            );
            match r {
                Ok(s) => plans.len() > 0 && is_fresh(
                    s,
                    plans,
                    opt_str(profile),
                    true,
                    FALLBACK_PORT_TIMEOUT_MS,
                ),
                Err(e) => plans.len() == 0 && e@ == (AppErrorView::NoPathFound {
                    host: host_of(url@),
                }),
            }
        }),
{
    let host = strip_url_to_host(url);
    let remote_port = port_for_scheme(url);
    let mut plans: Vec<TunnelPlan> = Vec::new();
    assert(plan_views(plans@) =~= Seq::<TunnelPlanView>::empty());
    let mut i: usize = 0;
    while i < instances.len()
        invariant
            i <= instances.len(),
            host@ == host_of(url@),
            plan_views(plans@) == bastion_plans(
                instances@,
                i as int,
                host@,
                local_port,
                remote_port,
            ),
        decreases instances.len() - i,
    {
        let online = match instances[i].ssm_status {
            SsmStatus::Online => true,
            _ => false,
        };
        if online && bastion_like(&instances[i]) {
            let ghost before = plan_views(plans@);
            let plan = TunnelPlan {
                instance_id: instances[i].id.clone(),
                instance_name: instances[i].name.clone(),
                remote_host: Some(host.clone()),
                local_port,
                remote_port,
            };
            plans.push(plan);
            assert(plan_views(plans@) =~= before.push(plan@));
        }
        i += 1;
    }
    if plans.len() == 0 {
        Err(AppError::NoPathFound { host })
    } else {
        Ok(Supervisor::new(plans, own_profile(profile), true, FALLBACK_PORT_TIMEOUT_MS))
    }
}

/// A tunnel to the host of a URL: through the relay of the load balancer
/// that fronts it, to the target's own port, where there is such a path;
/// else through whichever online bastion works.
pub fn try_alb_tunnel(
    url: &str,
    local_port: u16,
    remote_port: Option<u16>,
    resolved: &[Address],
    inventory: &Inventory,
    profile: Option<&str>,
) -> (r: Result<Supervisor, AppError>)
    ensures
        match fronting_path(remote_port, resolved@, *inventory) {
            Some(path) => r matches Ok(s) && path matches TunnelTargetView::RemoteViaBastion {
                bastion_id,
                bastion_name,
                target_host,
                target_port,
            } && is_single(s, plan_for(path, local_port, target_port), opt_str(profile)),
            None => {
                let plans = bastion_plans(
                    inventory.instances@,
                    inventory.instances@.len() as int,
                    host_of(url@),
                    local_port,
                    scheme_port(url@),
                );
                match r {
                    Ok(s) => plans.len() > 0 && is_fresh(
                        s,
                        plans,
                        opt_str(profile),
                        true,
                        FALLBACK_PORT_TIMEOUT_MS,
                    ),
                    Err(e) => plans.len() == 0 && e@ == (AppErrorView::NoPathFound {
                        host: host_of(url@),
                    }),
                }
            },
        },
{
    match find_balancer_path(remote_port, resolved, inventory) {
        Some(path) => {
            let port = match &path {
                TunnelTarget::RemoteViaBastion { target_port, .. } => *target_port,
                TunnelTarget::Ec2 { .. } => 0,
            };
            proof {
                crate::resolver::lemma_balancer_path_is_relay(remote_port, resolved@, *inventory);
            }
            Ok(single(plan_of(path, local_port, port), profile))
        },
        None => start_url_tunnel_via_any_bastion(
            url,
            local_port,
            inventory.instances.as_slice(),
            profile,
        ),
    }
}

// ── Stopping tunnels ─────────────────────────────────────────────────────

/// Terminate the agent of one tunnel.
pub fn stop_tunnel(pid: u32) -> (action: TunnelAction)
    ensures
        action@ == (TunnelActionView::Kill { pid }),
{
    TunnelAction::Kill { pid }
}

/// Terminate the agent of every known tunnel, and then every process of the
/// agent's name, for the tunnels that are not known.
pub fn stop_all_tunnels(tunnels: &[TunnelProcess]) -> (actions: Vec<TunnelAction>)
    ensures
        actions@.len() == tunnels@.len() + 1,
        forall|i: int|
            0 <= i < tunnels@.len() ==> (#[trigger] actions@[i])@ == (TunnelActionView::Kill {
                pid: tunnels@[i].pid,
            }),
        actions@[tunnels@.len() as int]@ == (TunnelActionView::KillByName { name: agent_name() }),
{
    let mut actions: Vec<TunnelAction> = Vec::new();
    let mut i: usize = 0;
    while i < tunnels.len()
        invariant
            i <= tunnels.len(),
            actions@.len() == i,
            forall|j: int|
                0 <= j < i ==> (#[trigger] actions@[j])@ == (TunnelActionView::Kill {
                    pid: tunnels@[j].pid,
                }),
        decreases tunnels.len() - i,
    {
        actions.push(stop_tunnel(tunnels[i].pid));
        i += 1;
    }
    actions.push(TunnelAction::KillByName { name: String::from_str("session-manager-plugin") });
    actions
}

} // verus!
