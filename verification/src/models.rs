//! Domain models: inventory snapshots, resolution paths and tunnel handles,
//! each with the mathematical view that the contracts speak of.

use vstd::prelude::*;
use crate::text::str_eq;

verus! {

/// The views of a list of texts.
pub open spec fn texts(v: Seq<String>) -> Seq<Seq<char>> {
    Seq::new(v.len(), |i: int| v[i]@)
}

/// The view of an optional text.
pub open spec fn opt_text(o: Option<String>) -> Option<Seq<char>> {
    match o {
        Some(s) => Some(s@),
        None => None,
    }
}

// ── Instance state ───────────────────────────────────────────────────────

#[derive(Debug, Clone)]
pub enum InstanceState {
    Running,
    Stopped,
    Pending,
    Stopping,
    Other(String),
}

pub enum InstanceStateView {
    Running,
    Stopped,
    Pending,
    Stopping,
    Other(Seq<char>),
}

impl View for InstanceState {
    type V = InstanceStateView;

    open spec fn view(&self) -> InstanceStateView {
        match self {
            InstanceState::Running => InstanceStateView::Running,
            InstanceState::Stopped => InstanceStateView::Stopped,
            InstanceState::Pending => InstanceStateView::Pending,
            InstanceState::Stopping => InstanceStateView::Stopping,
            InstanceState::Other(s) => InstanceStateView::Other(s@),
        }
    }
}

/// The state that a lifecycle name stands for.
pub open spec fn state_of_name(name: Seq<char>) -> InstanceStateView {
    if name == "running"@ {
        InstanceStateView::Running
    } else if name == "stopped"@ {
        InstanceStateView::Stopped
    } else if name == "pending"@ {
        InstanceStateView::Pending
    } else if name == "stopping"@ {
        InstanceStateView::Stopping
    } else {
        InstanceStateView::Other(name)
    }
}

/// The lifecycle name of a state.
pub open spec fn name_of_state(state: InstanceStateView) -> Seq<char> {
    match state {
        InstanceStateView::Running => "running"@,
        InstanceStateView::Stopped => "stopped"@,
        InstanceStateView::Pending => "pending"@,
        InstanceStateView::Stopping => "stopping"@,
        InstanceStateView::Other(s) => s,
    }
}

impl InstanceState {
    pub fn from_str(s: &str) -> (state: Self)
        ensures
            state@ == state_of_name(s@),
    {
        if str_eq(s, "running") {
            InstanceState::Running
        } else if str_eq(s, "stopped") {
            InstanceState::Stopped
        } else if str_eq(s, "pending") {
            InstanceState::Pending
        } else if str_eq(s, "stopping") {
            InstanceState::Stopping
        } else {
            InstanceState::Other(String::from_str(s))
        }
    }

    pub fn as_str(&self) -> (name: &str)
        ensures
            name@ == name_of_state(self@),
    {
        match self {
            InstanceState::Running => "running",
            InstanceState::Stopped => "stopped",
            InstanceState::Pending => "pending",
            InstanceState::Stopping => "stopping",
            InstanceState::Other(s) => s.as_str(),
        }
    }

    pub fn is_running(&self) -> (b: bool)
        ensures
            b == (self@ is Running),
    {
        match self {
            InstanceState::Running => true,
            _ => false,
        }
    }
}

/// Every lifecycle name is the name of the state it stands for.
pub proof fn law_state_names_round_trip(name: Seq<char>)
    ensures
        name_of_state(state_of_name(name)) == name,
{
}

// ── Agent status ─────────────────────────────────────────────────────────

#[derive(Debug, Clone, Copy, PartialEq, Eq, Structural)]
pub enum SsmStatus {
    Online,
    Offline,
    Unknown,
}

pub open spec fn ssm_status_label(status: SsmStatus) -> Seq<char> {
    match status {
        SsmStatus::Online => "Online"@,
        SsmStatus::Offline => "Offline"@,
        SsmStatus::Unknown => "-"@,
    }
}

/// The status that a reported ping status stands for.
pub open spec fn ssm_status_of(ping: Option<Seq<char>>) -> SsmStatus {
    match ping {
        Some(p) => if p == "Online"@ {
            SsmStatus::Online
        } else if p == "Offline"@ {
            SsmStatus::Offline
        } else {
            SsmStatus::Unknown
        },
        None => SsmStatus::Unknown,
    }
}

impl SsmStatus {
    pub fn as_str(&self) -> (label: &str)
        ensures
            label@ == ssm_status_label(*self),
    {
        match self {
            SsmStatus::Online => "Online",
            SsmStatus::Offline => "Offline",
            SsmStatus::Unknown => "-",
        }
    }
}

#[derive(Debug, Clone, Copy, PartialEq, Eq, Structural)]
pub enum TunnelStatus {
    Active,
    Down,
}

#[derive(Debug, Clone)]
pub struct TunnelInfo {
    pub local_port: u16,
    pub remote_port: u16,
    pub remote_host: Option<String>,
    pub status: TunnelStatus,
}

// ── Instances ────────────────────────────────────────────────────────────

#[derive(Debug, Clone)]
pub struct Instance {
    pub id: String,
    pub name: String,
    pub instance_type: String,
    pub state: InstanceState,
    pub private_ip: Option<String>,
    pub public_ip: Option<String>,
    pub ssm_status: SsmStatus,
    pub tunnel: Option<TunnelInfo>,
    pub security_groups: Vec<String>,
    pub security_group_ids: Vec<String>,
}

pub struct InstanceView {
    pub id: Seq<char>,
    pub name: Seq<char>,
    pub instance_type: Seq<char>,
    pub state: InstanceStateView,
    pub private_ip: Option<Seq<char>>,
    pub public_ip: Option<Seq<char>>,
    pub ssm_status: SsmStatus,
    pub has_tunnel: bool,
    pub security_groups: Seq<Seq<char>>,
    pub security_group_ids: Seq<Seq<char>>,
}

impl View for Instance {
    type V = InstanceView;

    open spec fn view(&self) -> InstanceView {
        InstanceView {
            id: self.id@,
            name: self.name@,
            instance_type: self.instance_type@,
            state: self.state@,
            private_ip: opt_text(self.private_ip),
            public_ip: opt_text(self.public_ip),
            ssm_status: self.ssm_status,
            has_tunnel: self.tunnel is Some,
            security_groups: texts(self.security_groups@),
            security_group_ids: texts(self.security_group_ids@),
        }
    }
}

#[derive(Debug, Clone)]
pub struct BastionInfo {
    pub id: String,
    pub name: String,
    pub ssm_online: bool,
}

pub struct BastionInfoView {
    pub id: Seq<char>,
    pub name: Seq<char>,
    pub ssm_online: bool,
}

impl View for BastionInfo {
    type V = BastionInfoView;

    open spec fn view(&self) -> BastionInfoView {
        BastionInfoView { id: self.id@, name: self.name@, ssm_online: self.ssm_online }
    }
}

// ── Tunnel handles and resolution paths ──────────────────────────────────

#[derive(Debug, Clone)]
pub struct TunnelProcess {
    pub pid: u32,
    pub local_port: u16,
    pub remote_port: u16,
    pub remote_host: Option<String>,
    pub instance_id: String,
    pub instance_name: String,
    /// Confirmed reachable: set when the handle is made, never recomputed.
    pub port_open: bool,
    /// Round-trip latency in milliseconds of the first answered probe.
    pub latency_ms: Option<u64>,
}

pub struct TunnelProcessView {
    pub pid: u32,
    pub local_port: u16,
    pub remote_port: u16,
    pub remote_host: Option<Seq<char>>,
    pub instance_id: Seq<char>,
    pub instance_name: Seq<char>,
    pub port_open: bool,
    pub latency_ms: Option<u64>,
}

impl View for TunnelProcess {
    type V = TunnelProcessView;

    open spec fn view(&self) -> TunnelProcessView {
        TunnelProcessView {
            pid: self.pid,
            local_port: self.local_port,
            remote_port: self.remote_port,
            remote_host: opt_text(self.remote_host),
            instance_id: self.instance_id@,
            instance_name: self.instance_name@,
            port_open: self.port_open,
            latency_ms: self.latency_ms,
        }
    }
}

/// A resolution path: the instance itself, or a relay that forwards to a
/// host and port.
#[derive(Debug, Clone)]
pub enum TunnelTarget {
    Ec2 { instance_id: String, name: String },
    RemoteViaBastion {
        bastion_id: String,
        bastion_name: String,
        target_host: String,
        target_port: u16,
    },
}

pub enum TunnelTargetView {
    Ec2 { instance_id: Seq<char>, name: Seq<char> },
    RemoteViaBastion {
        bastion_id: Seq<char>,
        bastion_name: Seq<char>,
        target_host: Seq<char>,
        target_port: u16,
    },
}

impl View for TunnelTarget {
    type V = TunnelTargetView;

    open spec fn view(&self) -> TunnelTargetView {
        match self {
            TunnelTarget::Ec2 { instance_id, name } => TunnelTargetView::Ec2 {
                instance_id: instance_id@,
                name: name@,
            },
            TunnelTarget::RemoteViaBastion {
                bastion_id,
                bastion_name,
                target_host,
                target_port,
            } => TunnelTargetView::RemoteViaBastion {
                bastion_id: bastion_id@,
                bastion_name: bastion_name@,
                target_host: target_host@,
                target_port: *target_port,
            },
        }
    }
}

// ── Inventory query results ──────────────────────────────────────────────

#[derive(Debug, Clone)]
pub struct RawInstance {
    pub instance_id: String,
    pub instance_type: String,
    pub state: RawInstanceState,
    pub private_ip: Option<String>,
    pub public_ip: Option<String>,
    pub tags: Option<Vec<Tag>>,
    pub security_groups: Option<Vec<SecurityGroup>>,
}

#[derive(Debug, Clone)]
pub struct RawInstanceState {
    pub name: String,
}

#[derive(Debug, Clone)]
pub struct Tag {
    pub key: String,
    pub value: String,
}

#[derive(Debug, Clone)]
pub struct SecurityGroup {
    pub group_id: String,
    pub group_name: String,
}

#[derive(Debug, Clone)]
pub struct SsmInstanceInfo {
    pub instance_id: String,
    pub ping_status: String,
}

#[derive(Debug, Clone)]
pub struct SsmDescribeResponse {
    pub instance_information_list: Vec<SsmInstanceInfo>,
}

/// A resolved network address: its text, and whether it is a loopback address.
#[derive(Debug, Clone)]
pub struct Address {
    pub text: String,
    pub loopback: bool,
}

/// One inbound permission of a security group.
#[derive(Debug, Clone)]
pub struct SecurityGroupRule {
    /// `-1` stands for any protocol.
    pub protocol: String,
    pub from_port: u16,
    pub to_port: u16,
    /// Ids of the security groups that the rule admits as sources.
    pub source_groups: Vec<String>,
}

pub struct SecurityGroupRuleView {
    pub protocol: Seq<char>,
    pub from_port: u16,
    pub to_port: u16,
    pub source_groups: Seq<Seq<char>>,
}

impl View for SecurityGroupRule {
    type V = SecurityGroupRuleView;

    open spec fn view(&self) -> SecurityGroupRuleView {
        SecurityGroupRuleView {
            protocol: self.protocol@,
            from_port: self.from_port,
            to_port: self.to_port,
            source_groups: texts(self.source_groups@),
        }
    }
}

/// A member of a load balancer's target group.
#[derive(Debug, Clone)]
pub struct LoadBalancerTarget {
    /// Health state; the target is usable only when it is `healthy`.
    pub health: String,
    /// An address or an instance id.
    pub id: String,
    pub port: u16,
    /// Security groups of the network interfaces behind the target.
    pub security_group_ids: Vec<String>,
    /// Inbound permissions of those security groups.
    pub rules: Vec<SecurityGroupRule>,
}

#[derive(Debug, Clone)]
pub struct TargetGroup {
    pub arn: String,
    pub port: u16,
    pub targets: Vec<LoadBalancerTarget>,
}

#[derive(Debug, Clone)]
pub struct LoadBalancer {
    pub arn: Option<String>,
    pub dns_name: String,
    /// Addresses that the public name resolves to.
    pub addresses: Vec<String>,
    pub target_groups: Vec<TargetGroup>,
}

/// What one refresh of the inventory returned.
#[derive(Debug, Clone)]
pub struct Inventory {
    pub instances: Vec<Instance>,
    pub load_balancers: Vec<LoadBalancer>,
}

} // verus!
