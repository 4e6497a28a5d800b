//! The state of the interactive front end: tabs, selections, popups, and
//! what the answers of background work change in them.
//!
//! Nothing here draws or reads keys. Work that takes time is not done here
//! either: a function that wants it done returns a `Request`.

use vstd::prelude::*;
use vstd::string::StringExecFns;
use crate::decimal::{decimal_digits, push_decimal};
use crate::error::{message_of, AppError};
use crate::models::{opt_text, Instance, TunnelProcess, TunnelProcessView};
use crate::text::{chars_of, contains, is_substring, lowercase};
use crate::tunnel::{TunnelAction, TunnelActionView};

verus! {

// ── Tabs ─────────────────────────────────────────────────────────────────

#[derive(Debug, Clone, Copy, PartialEq, Eq, Structural)]
pub enum Tab {
    Instances,
    Tunnels,
    Tools,
    Vpn,
}

pub const TAB_COUNT: usize = 4;

pub open spec fn tab_index(tab: Tab) -> usize {
    match tab {
        Tab::Instances => 0,
        Tab::Tunnels => 1,
        Tab::Tools => 2,
        Tab::Vpn => 3,
    }
}

/// The tab at an index; the first tab for an index that no tab has.
pub open spec fn tab_at(i: usize) -> Tab {
    if i == 1 {
        Tab::Tunnels
    } else if i == 2 {
        Tab::Tools
    } else if i == 3 {
        Tab::Vpn
    } else {
        Tab::Instances
    }
}

pub open spec fn tab_title(tab: Tab) -> Seq<char> {
    match tab {
        Tab::Instances => "Instances"@,
        Tab::Tunnels => "Tunnels"@,
        Tab::Tools => "Tools"@,
        Tab::Vpn => "VPN"@,
    }
}

impl Tab {
    /// The titles of the tabs, in the order of their indices.
    pub fn titles() -> (titles: [&'static str; 4])
        ensures
            forall|i: int| 0 <= i < 4 ==> (#[trigger] titles@[i])@ == tab_title(tab_at(i as usize)),
    {
        ["Instances", "Tunnels", "Tools", "VPN"]
    }

    pub fn index(self) -> (i: usize)
        ensures
            i == tab_index(self),
            i < TAB_COUNT,
    {
        match self {
            Tab::Instances => 0,
            Tab::Tunnels => 1,
            Tab::Tools => 2,
            Tab::Vpn => 3,
        }
    }

    pub fn from_index(i: usize) -> (tab: Tab)
        ensures
            tab == tab_at(i),
    {
        if i == 1 {
            Tab::Tunnels
        } else if i == 2 {
            Tab::Tools
        } else if i == 3 {
            Tab::Vpn
        } else {
            Tab::Instances
        }
    }

    /// The tab to the right, around the end.
    pub fn next(self) -> (tab: Tab)
        ensures
            tab == tab_at(((tab_index(self) + 1) % 4) as usize),
    {
        Tab::from_index((self.index() + 1) % TAB_COUNT)
    }

    /// The tab to the left, around the start.
    pub fn prev(self) -> (tab: Tab)
        ensures
            tab == tab_at(((tab_index(self) + 3) % 4) as usize),
    {
        Tab::from_index((self.index() + TAB_COUNT - 1) % TAB_COUNT)
    }
}

/// Every tab is the tab at its index, and going right and then left, or
/// left and then right, leads back.
pub proof fn law_tabs_go_round(tab: Tab)
    ensures
        tab_at(tab_index(tab)) == tab,
        tab_at(((tab_index(tab_at(((tab_index(tab) + 1) % 4) as usize)) + 3) % 4) as usize) == tab,
        tab_at(((tab_index(tab_at(((tab_index(tab) + 3) % 4) as usize)) + 1) % 4) as usize) == tab,
{
}

// ── Spinner ──────────────────────────────────────────────────────────────

pub open spec fn spinner_frames() -> Seq<char> {
    seq![
        '\u{280b}',
        '\u{2819}',
        '\u{2839}',
        '\u{2838}',
        '\u{283c}',
        '\u{2834}',
        '\u{2826}',
        '\u{2827}',
        '\u{2807}',
        '\u{280f}',
    ]
}

/// The frame of the spinner at a tick.
pub fn spinner_char(tick: u8) -> (c: char)
    ensures
        c == spinner_frames()[(tick % 10) as int],
{
    let k = tick % 10;
    if k == 0 {
        '\u{280b}'
    } else if k == 1 {
        '\u{2819}'
    } else if k == 2 {
        '\u{2839}'
    } else if k == 3 {
        '\u{2838}'
    } else if k == 4 {
        '\u{283c}'
    } else if k == 5 {
        '\u{2834}'
    } else if k == 6 {
        '\u{2826}'
    } else if k == 7 {
        '\u{2827}'
    } else if k == 8 {
        '\u{2807}'
    } else {
        '\u{280f}'
    }
}

// ── Popups ───────────────────────────────────────────────────────────────

#[derive(Debug, Clone, Copy, PartialEq, Eq, Structural)]
pub enum InputTag {
    NewTunnelPattern,
    NewTunnelLocalPort,
    NewTunnelRemotePort,
    NewTunnelUrl,
    NewTunnelUrlLocalPort,
    NewTunnelUrlRemotePort,
    NewTunnelBastionPattern,
    NewTunnelBastionHost,
    NewTunnelBastionLocalPort,
    NewTunnelBastionRemotePort,
    LoginProfile,
    ResolveUrl,
    TestPort,
    SwitchProfile,
    SwitchRegion,
    VpnMfaCode,
    VpnSetupUsername,
    VpnSetupPassword,
    VpnSetupOvpnPath,
}

#[derive(Debug, Clone, Copy, PartialEq, Eq, Structural)]
pub enum ConfirmTag {
    StopTunnel(usize),
    StopAllTunnels,
    StopInstance,
    ForceStopInstance,
}

#[derive(Debug, Clone)]
pub enum Popup {
    /// No popup is open.
    Closed,
    Help,
    /// A line of text to enter.
    Input { title: String, placeholder: String, value: String, tag: InputTag },
    /// A list to choose from.
    Select { title: String, items: Vec<String>, selected: usize, tag: InputTag },
    /// A question to confirm.
    Confirm { message: String, tag: ConfirmTag, selected_yes: bool },
    /// The text of a success or of a failure.
    Result { title: String, body: String, is_error: bool },
    /// Work is going on.
    Loading { message: String },
}

/// What a popup that shows a result says.
pub open spec fn shows(popup: Popup, title: Seq<char>, body: Seq<char>, is_error: bool) -> bool {
    popup matches Popup::Result { title: t, body: b, is_error: e } && t@ == title && b@ == body && e
        == is_error
}

/// What a popup that asks for a line of text says.
pub open spec fn asks(
    popup: Popup,
    title: Seq<char>,
    placeholder: Seq<char>,
    value: Seq<char>,
    tag: InputTag,
) -> bool {
    popup matches Popup::Input { title: t, placeholder: p, value: v, tag: g } && t@ == title && p@
        == placeholder && v@ == value && g == tag
}

/// What a popup that asks for confirmation says. It starts on "no".
pub open spec fn confirms(popup: Popup, message: Seq<char>, tag: ConfirmTag) -> bool {
    popup matches Popup::Confirm { message: m, tag: g, selected_yes: y } && m@ == message && g
        == tag && !y
}

// ── Background work ──────────────────────────────────────────────────────

/// What background work answers.
#[derive(Debug)]
pub enum BgMessage {
    InstancesLoaded(Result<Vec<Instance>, AppError>),
    TunnelsLoaded(Vec<TunnelProcess>),
    TunnelStarted(Result<TunnelProcess, AppError>),
    ActionDone(Result<String, AppError>),
    /// How far the connection of the VPN has come.
    VpnProgress(String),
    VpnConnected(Result<String, AppError>),
}

/// Whether the VPN is up, and under which address.
#[derive(Debug, Clone)]
pub struct VpnProbe {
    pub connected: bool,
    pub ip: Option<String>,
}

#[derive(Debug, Clone)]
pub struct VpnConfig {
    pub sso_username: String,
    pub sso_password: String,
    pub ovpn_path: String,
    pub dns_server: String,
    pub dns_domain: String,
}

/// What is entered in the steps of a wizard.
#[derive(Debug, Clone)]
pub struct WizardBuf {
    pub pattern: String,
    pub local_port: String,
    pub remote_port: String,
    pub url: String,
    pub bastion: String,
    pub host: String,
}

/// The line that says whether the VPN is up.
pub open spec fn vpn_status_line(connected: bool, ip: Option<Seq<char>>) -> Seq<char> {
    if connected {
        "CONNECTED ("@ + (match ip {
            Some(a) => a,
            None => "?"@,
        }) + ")"@
    } else {
        "DISCONNECTED"@
    }
}

pub fn vpn_status_text(probe: &VpnProbe) -> (line: String)
    ensures
        line@ == vpn_status_line(probe.connected, opt_text(probe.ip)),
{
    if probe.connected {
        let mut line = String::from_str("CONNECTED (");
        match &probe.ip {
            Some(a) => {
                line.append(a.as_str());
            },
            None => {
                line.append("?");
            },
        }
        line.append(")");
        line
    } else {
        String::from_str("DISCONNECTED")
    }
}

/// How an established tunnel is announced.
pub open spec fn started_line(tp: TunnelProcessView) -> Seq<char> {
    "localhost:"@ + decimal_digits(tp.local_port as nat) + " -> "@ + (match tp.remote_host {
        Some(h) => h,
        None => tp.instance_name,
    }) + ":"@ + decimal_digits(tp.remote_port as nat) + (match tp.latency_ms {
        Some(ms) => " ("@ + decimal_digits(ms as nat) + "ms)"@,
        None => Seq::<char>::empty(),
    })
}

pub fn started_text(tp: &TunnelProcess) -> (line: String)
    ensures
        line@ == started_line(tp@),
{
    let mut line = String::from_str("localhost:");
    push_decimal(&mut line, tp.local_port as u64);
    line.append(" -> ");
    match &tp.remote_host {
        Some(h) => {
            line.append(h.as_str());
        },
        None => {
            line.append(tp.instance_name.as_str());
        },
    }
    line.append(":");
    push_decimal(&mut line, tp.remote_port as u64);
    match tp.latency_ms {
        Some(ms) => {
            line.append(" (");
            push_decimal(&mut line, ms);
            line.append("ms)");
        },
        None => {},
    }
    assert(line@ =~= started_line(tp@));
    line
}

/// Work that the front end wants done outside of it.
#[derive(Debug)]
pub enum Request {
    LoadInstances,
    LoadTunnels,
    /// Terminate forwarding agents.
    Perform(Vec<TunnelAction>),
    StartInstance { id: String, name: String },
    StopInstance { id: String, name: String, force: bool },
    TunnelByPattern { pattern: String, local_port: u16, remote_port: u16 },
    TunnelByUrl { url: String, local_port: u16, remote_port: Option<u16> },
    TunnelViaBastion { bastion: String, host: String, local_port: u16, remote_port: u16 },
    /// Offer the configured profiles to choose from.
    ListProfiles,
    UseProfile { profile: String },
    UseRegion { region: String },
    Login { profile: Option<String> },
    ResolveUrl { url: String },
    TestPort { port: u16 },
    VpnConnect { mfa_code: String },
    VpnDisconnect,
    /// Look whether the VPN is up, and show it where `show` is set.
    VpnStatus { show: bool },
    SaveVpnConfig,
}

pub enum RequestView {
    LoadInstances,
    LoadTunnels,
    Perform(Seq<TunnelActionView>),
    StartInstance { id: Seq<char>, name: Seq<char> },
    StopInstance { id: Seq<char>, name: Seq<char>, force: bool },
    TunnelByPattern { pattern: Seq<char>, local_port: u16, remote_port: u16 },
    TunnelByUrl { url: Seq<char>, local_port: u16, remote_port: Option<u16> },
    TunnelViaBastion { bastion: Seq<char>, host: Seq<char>, local_port: u16, remote_port: u16 },
    ListProfiles,
    UseProfile { profile: Seq<char> },
    UseRegion { region: Seq<char> },
    Login { profile: Option<Seq<char>> },
    ResolveUrl { url: Seq<char> },
    TestPort { port: u16 },
    VpnConnect { mfa_code: Seq<char> },
    VpnDisconnect,
    VpnStatus { show: bool },
    SaveVpnConfig,
}

/// The views of a list of actions.
pub open spec fn action_views(actions: Seq<TunnelAction>) -> Seq<TunnelActionView> {
    Seq::new(actions.len(), |i: int| actions[i]@)
}

impl View for Request {
    type V = RequestView;

    open spec fn view(&self) -> RequestView {
        match self {
            Request::LoadInstances => RequestView::LoadInstances,
            Request::LoadTunnels => RequestView::LoadTunnels,
            Request::Perform(actions) => RequestView::Perform(action_views(actions@)),
            Request::StartInstance { id, name } => RequestView::StartInstance {
                id: id@,
                name: name@,
            },
            Request::StopInstance { id, name, force } => RequestView::StopInstance {
                id: id@,
                name: name@,
                force: *force,
            },
            Request::TunnelByPattern {
                pattern,
                local_port,
                remote_port,
            } => RequestView::TunnelByPattern {
                pattern: pattern@,
                local_port: *local_port,
                remote_port: *remote_port,
            },
            Request::TunnelByUrl { url, local_port, remote_port } => RequestView::TunnelByUrl {
                url: url@,
                local_port: *local_port,
                remote_port: *remote_port,
            },
            Request::TunnelViaBastion {
                bastion,
                host,
                local_port,
                remote_port,
            } => RequestView::TunnelViaBastion {
                bastion: bastion@,
                host: host@,
                local_port: *local_port,
                remote_port: *remote_port,
            },
            Request::ListProfiles => RequestView::ListProfiles,
            Request::UseProfile { profile } => RequestView::UseProfile { profile: profile@ },
            Request::UseRegion { region } => RequestView::UseRegion { region: region@ },
            Request::Login { profile } => RequestView::Login { profile: opt_text(*profile) },
            Request::ResolveUrl { url } => RequestView::ResolveUrl { url: url@ },
            Request::TestPort { port } => RequestView::TestPort { port: *port },
            Request::VpnConnect { mfa_code } => RequestView::VpnConnect { mfa_code: mfa_code@ },
            Request::VpnDisconnect => RequestView::VpnDisconnect,
            Request::VpnStatus { show } => RequestView::VpnStatus { show: *show },
            Request::SaveVpnConfig => RequestView::SaveVpnConfig,
        }
    }
}

/// The views of a list of requests.
pub open spec fn request_views(requests: Seq<Request>) -> Seq<RequestView> {
    Seq::new(requests.len(), |i: int| requests[i]@)
}

/// No request.
pub fn no_requests() -> (requests: Vec<Request>)
    ensures
        request_views(requests@) == Seq::<RequestView>::empty(),
{
    let requests: Vec<Request> = Vec::new();
    assert(request_views(requests@) =~= Seq::<RequestView>::empty());
    requests
}

/// One request.
pub fn one_request(request: Request) -> (requests: Vec<Request>)
    ensures
        request_views(requests@) == seq![request@],
{
    let mut requests: Vec<Request> = Vec::new();
    requests.push(request);
    assert(request_views(requests@) =~= seq![request@]);
    requests
}

/// A key that was pressed.
#[derive(Debug, Clone, Copy, PartialEq, Eq, Structural)]
pub enum KeyCode {
    Esc,
    Enter,
    Backspace,
    Tab,
    BackTab,
    Up,
    Down,
    Left,
    Right,
    Delete,
    Char(char),
    Other,
}

/// A key press: the key, and whether it came with the control key alone, or
/// with no modifier at all.
#[derive(Debug, Clone, Copy, PartialEq, Eq, Structural)]
pub struct Key {
    pub code: KeyCode,
    pub control: bool,
    pub unmodified: bool,
}

/// A popup that asks for a line of text.
pub fn input_popup(title: &str, placeholder: &str, value: &str, tag: InputTag) -> (popup: Popup)
    ensures
        asks(popup, title@, placeholder@, value@, tag),
{
    Popup::Input {
        title: String::from_str(title),
        placeholder: String::from_str(placeholder),
        value: String::from_str(value),
        tag,
    }
}

/// A popup that shows the text of a success or of a failure.
pub fn result_popup(title: &str, body: String, is_error: bool) -> (popup: Popup)
    ensures
        shows(popup, title@, body@, is_error),
{
    Popup::Result { title: String::from_str(title), body, is_error }
}

/// A popup that asks for confirmation, and starts on "no".
pub fn confirm_popup(message: String, tag: ConfirmTag) -> (popup: Popup)
    ensures
        confirms(popup, message@, tag),
{
    Popup::Confirm { message, tag, selected_yes: false }
}

/// What a popup that shows that work goes on says.
pub open spec fn waits(popup: Popup, message: Seq<char>) -> bool {
    popup matches Popup::Loading { message: m } && m@ == message
}

pub fn loading_popup(message: String) -> (popup: Popup)
    ensures
        waits(popup, message@),
{
    Popup::Loading { message }
}

/// A selection kept within a list of `len` items: the last item where it was
/// beyond it, the first where the list is empty.
pub open spec fn kept_within(selected: usize, len: nat) -> usize {
    if len == 0 {
        0
    } else if selected < len {
        selected
    } else {
        (len - 1) as usize
    }
}

pub(crate) fn keep_within(selected: usize, len: usize) -> (r: usize)
    ensures
        r == kept_within(selected, len as nat),
{
    if len == 0 {
        0
    } else if selected < len {
        selected
    } else {
        len - 1
    }
}

/// How often the spinner ticks between two refreshes of the tunnels.
pub const TUNNEL_REFRESH_TICKS: u32 = 75;

// ── The state ────────────────────────────────────────────────────────────

#[derive(Debug)]
pub struct App {
    pub profile: String,
    pub region: String,
    pub tab: Tab,
    pub tunnel_refresh_ticks: u32,
    pub instances: Vec<Instance>,
    pub instance_selected: usize,
    pub instance_filter: String,
    pub instance_filter_active: bool,
    pub tunnels: Vec<TunnelProcess>,
    pub tunnel_selected: usize,
    pub tool_selected: usize,
    pub vpn_selected: usize,
    pub vpn_config: VpnConfig,
    pub vpn_status: String,
    pub popup: Popup,
    pub loading: bool,
    pub loading_message: String,
    pub spinner_tick: u8,
    pub wizard_buf: WizardBuf,
    pub quit: bool,
    pub status_msg: Option<String>,
}

/// The second state differs from the first in its popup at most.
pub open spec fn same_but_popup(a: App, b: App) -> bool {
    b == (App { popup: b.popup, ..a })
}

/// The second state differs from the first in its popup and in what its
/// wizard took in at most.
pub open spec fn same_but_wizard(a: App, b: App) -> bool {
    b == (App { popup: b.popup, wizard_buf: b.wizard_buf, ..a })
}

/// The second state differs from the first in the selection on the tunnels
/// tab at most.
pub open spec fn same_but_tunnel_selection(a: App, b: App) -> bool {
    b == (App { tunnel_selected: b.tunnel_selected, ..a })
}

/// The instance is shown under a filter: the filter is empty, or its name,
/// its id or its type holds the filter, whatever the case.
pub open spec fn passes_filter(inst: Instance, filter: Seq<char>) -> bool {
    ||| lowercase(filter).len() == 0
    ||| is_substring(lowercase(inst.name@), lowercase(filter))
    ||| is_substring(lowercase(inst.id@), lowercase(filter))
    ||| is_substring(lowercase(inst.instance_type@), lowercase(filter))
}

/// The instances among the first `n` that pass the filter, in order.
pub open spec fn filtered(instances: Seq<Instance>, filter: Seq<char>, n: int) -> Seq<Instance>
    decreases n,
{
    if n <= 0 {
        Seq::empty()
    } else if passes_filter(instances[n - 1], filter) {
        filtered(instances, filter, n - 1).push(instances[n - 1])
    } else {
        filtered(instances, filter, n - 1)
    }
}

/// What a list of references refers to.
pub open spec fn referred(refs: Seq<&Instance>) -> Seq<Instance> {
    Seq::new(refs.len(), |i: int| *refs[i])
}

fn holds_lowercase(text: &str, needle: &Vec<char>) -> (b: bool)
    ensures
        b == is_substring(lowercase(text@), needle@),
{
    let lower = text.to_lowercase();
    let hay = chars_of(lower.as_str());
    contains(&hay, needle)
}

/// The view of an optional request.
pub open spec fn opt_request(r: Option<Request>) -> Option<RequestView> {
    match r {
        Some(x) => Some(x@),
        None => None,
    }
}

/// What one answer of background work leads to. Loading is over. New
/// instances or tunnels replace the old ones, and the selection is kept
/// within them; a started tunnel joins the tunnels; every other answer is
/// shown in a popup. After an action that succeeded the instances are asked
/// for again.
pub open spec fn message_effect(
    before: App,
    after: App,
    message: BgMessage,
    vpn: VpnProbe,
    request: Option<RequestView>,
) -> bool {
    match message {
        BgMessage::InstancesLoaded(Ok(instances)) => request is None && after == (App {
            loading: false,
            instances,
            instance_selected: kept_within(before.instance_selected, instances@.len()),
            ..before
        }),
        BgMessage::InstancesLoaded(Err(e)) => request is None && shows(
            after.popup,
            "Error"@,
            message_of(e@),
            true,
        ) && after == (App { loading: false, popup: after.popup, ..before }),
        BgMessage::TunnelsLoaded(tunnels) => request is None && after == (App {
            loading: false,
            tunnels,
            tunnel_selected: kept_within(before.tunnel_selected, tunnels@.len()),
            ..before
        }),
        BgMessage::TunnelStarted(Ok(tp)) => request is None && after.tunnels@
            == before.tunnels@.push(tp) && shows(
            after.popup,
            "Tunnel Started"@,
            started_line(tp@),
            false,
        ) && after == (App {
            loading: false,
            tunnels: after.tunnels,
            popup: after.popup,
            ..before
        }),
        BgMessage::TunnelStarted(Err(e)) => request is None && shows(
            after.popup,
            "Tunnel Error"@,
            message_of(e@),
            true,
        ) && after == (App { loading: false, popup: after.popup, ..before }),
        BgMessage::ActionDone(Ok(text)) => request == Some(RequestView::LoadInstances) && shows(
            after.popup,
            "Done"@,
            text@,
            false,
        ) && after.loading_message@ == "Loading instances..."@ && after == (App {
            loading: true,
            loading_message: after.loading_message,
            popup: after.popup,
            ..before
        }),
        BgMessage::ActionDone(Err(e)) => request is None && shows(
            after.popup,
            "Error"@,
            message_of(e@),
            true,
        ) && after == (App { loading: false, popup: after.popup, ..before }),
        BgMessage::VpnProgress(text) => request is None && waits(after.popup, text@) && after == (
        App { loading: false, popup: after.popup, ..before }),
        BgMessage::VpnConnected(Ok(text)) => request is None && after.vpn_status@
            == vpn_status_line(vpn.connected, opt_text(vpn.ip)) && shows(
            after.popup,
            "VPN"@,
            text@,
            false,
        ) && after == (App {
            loading: false,
            vpn_status: after.vpn_status,
            popup: after.popup,
            ..before
        }),
        BgMessage::VpnConnected(Err(e)) => request is None && after.vpn_status@ == "DISCONNECTED"@
            && shows(after.popup, "VPN Error"@, message_of(e@), true) && after == (App {
            loading: false,
            vpn_status: after.vpn_status,
            popup: after.popup,
            ..before
        }),
    }
}

/// What a tick leads to: the spinner moves on by one frame, around the end;
/// on every 75th tick the tunnels are asked to be detected again.
pub open spec fn tick_effect(before: App, after: App, request: Option<RequestView>) -> bool {
    let spinner = if before.spinner_tick == 255 {
        0u8
    } else {
        (before.spinner_tick + 1) as u8
    };
    let ticks = if before.tunnel_refresh_ticks == 0xffff_ffff {
        0u32
    } else {
        (before.tunnel_refresh_ticks + 1) as u32
    };
    if ticks >= TUNNEL_REFRESH_TICKS {
        request == Some(RequestView::LoadTunnels) && after == (App {
            spinner_tick: spinner,
            tunnel_refresh_ticks: 0,
            ..before
        })
    } else {
        request is None && after == (App {
            spinner_tick: spinner,
            tunnel_refresh_ticks: ticks,
            ..before
        })
    }
}

impl WizardBuf {
    /// A wizard in which nothing is entered.
    pub fn empty() -> (w: WizardBuf)
        ensures
            w.pattern@.len() == 0,
            w.local_port@.len() == 0,
            w.remote_port@.len() == 0,
            w.url@.len() == 0,
            w.bastion@.len() == 0,
            w.host@.len() == 0,
    {
        WizardBuf {
            pattern: String::new(),
            local_port: String::new(),
            remote_port: String::new(),
            url: String::new(),
            bastion: String::new(),
            host: String::new(),
        }
    }
}

impl App {
    /// The state at the start: the first tab, nothing loaded, nothing
    /// selected, no popup.
    pub fn new(profile: String, region: String, vpn_config: VpnConfig, vpn: &VpnProbe) -> (app: App)
        ensures
            app.vpn_status@ == vpn_status_line(vpn.connected, opt_text(vpn.ip)),
            app.instances@.len() == 0,
            app.tunnels@.len() == 0,
            app.instance_filter@.len() == 0,
            app.loading_message@.len() == 0,
            crate::pages::tunnels::is_blank(app.wizard_buf),
            app == (App {
                profile,
                region,
                tab: Tab::Instances,
                tunnel_refresh_ticks: 0,
                instances: app.instances,
                instance_selected: 0,
                instance_filter: app.instance_filter,
                instance_filter_active: false,
                tunnels: app.tunnels,
                tunnel_selected: 0,
                tool_selected: 0,
                vpn_selected: 0,
                vpn_config,
                vpn_status: app.vpn_status,
                popup: Popup::Closed,
                loading: false,
                loading_message: app.loading_message,
                spinner_tick: 0,
                wizard_buf: app.wizard_buf,
                quit: false,
                status_msg: None,
            }),
    {
        App {
            profile,
            region,
            tab: Tab::Instances,
            tunnel_refresh_ticks: 0,
            instances: Vec::new(),
            instance_selected: 0,
            instance_filter: String::new(),
            instance_filter_active: false,
            tunnels: Vec::new(),
            tunnel_selected: 0,
            tool_selected: 0,
            vpn_selected: 0,
            vpn_config,
            vpn_status: vpn_status_text(vpn),
            popup: Popup::Closed,
            loading: false,
            loading_message: String::new(),
            spinner_tick: 0,
            wizard_buf: WizardBuf::empty(),
            quit: false,
            status_msg: None,
        }
    }

    /// Asks for the instances to be loaded, and shows that this goes on.
    pub fn refresh_instances(&mut self) -> (request: Request)
        ensures
            request is LoadInstances,
            final(self).loading_message@ == "Loading instances..."@,
            *final(self) == (App {
                loading: true,
                loading_message: final(self).loading_message,
                ..*old(self)
            }),
    {
        self.loading = true;
        self.loading_message = String::from_str("Loading instances...");
        Request::LoadInstances
    }

    /// Asks for the tunnels to be detected again.
    pub fn refresh_tunnels(&self) -> (request: Request)
        ensures
            request is LoadTunnels,
    {
        Request::LoadTunnels
    }

    /// Takes in one answer of background work. Loading is over. New
    /// instances or tunnels replace the old ones, and the selection is kept
    /// within them; a started tunnel joins the tunnels; every other answer
    /// is shown in a popup. After an action that succeeded the instances are
    /// asked for again.
    pub fn poll_bg(&mut self, message: BgMessage, vpn: &VpnProbe) -> (request: Option<Request>)
        ensures
            message_effect(*old(self), *final(self), message, *vpn, opt_request(request)),
    {
        self.loading = false;
        match message {
            BgMessage::InstancesLoaded(Ok(instances)) => {
                self.instance_selected = keep_within(self.instance_selected, instances.len());
                self.instances = instances;
                None
            },
            BgMessage::InstancesLoaded(Err(e)) => {
                self.popup = Popup::Result {
                    title: String::from_str("Error"),
                    body: e.message(),
                    is_error: true,
                };
                None
            },
            BgMessage::TunnelsLoaded(tunnels) => {
                self.tunnel_selected = keep_within(self.tunnel_selected, tunnels.len());
                self.tunnels = tunnels;
                None
            },
            BgMessage::TunnelStarted(Ok(tp)) => {
                let body = started_text(&tp);
                self.tunnels.push(tp);
                self.popup = Popup::Result {
                    title: String::from_str("Tunnel Started"),
                    body,
                    is_error: false,
                };
                None
            },
            BgMessage::TunnelStarted(Err(e)) => {
                self.popup = Popup::Result {
                    title: String::from_str("Tunnel Error"),
                    body: e.message(),
                    is_error: true,
                };
                None
            },
            BgMessage::ActionDone(Ok(text)) => {
                self.popup = Popup::Result {
                    title: String::from_str("Done"),
                    body: text,
                    is_error: false,
                };
                Some(self.refresh_instances())
            },
            BgMessage::ActionDone(Err(e)) => {
                self.popup = Popup::Result {
                    title: String::from_str("Error"),
                    body: e.message(),
                    is_error: true,
                };
                None
            },
            BgMessage::VpnProgress(text) => {
                self.popup = Popup::Loading { message: text };
                None
            },
            BgMessage::VpnConnected(Ok(text)) => {
                self.vpn_status = vpn_status_text(vpn);
                self.popup = Popup::Result {
                    title: String::from_str("VPN"),
                    body: text,
                    is_error: false,
                };
                None
            },
            BgMessage::VpnConnected(Err(e)) => {
                self.vpn_status = String::from_str("DISCONNECTED");
                self.popup = Popup::Result {
                    title: String::from_str("VPN Error"),
                    body: e.message(),
                    is_error: true,
                };
                None
            },
        }
    }

    /// The instances that pass the filter, in order.
    pub fn filtered_instances(&self) -> (shown: Vec<&Instance>)
        ensures
            referred(shown@) == filtered(
                self.instances@,
                self.instance_filter@,
                self.instances@.len() as int,
            ),
    {
        let lower = self.instance_filter.as_str().to_lowercase();
        let needle = chars_of(lower.as_str());
        let mut shown: Vec<&Instance> = Vec::new();
        assert(referred(shown@) =~= Seq::<Instance>::empty());
        let mut i: usize = 0;
        while i < self.instances.len()
            invariant
                i <= self.instances.len(),
                needle@ == lowercase(self.instance_filter@),
                referred(shown@) == filtered(self.instances@, self.instance_filter@, i as int),
            decreases self.instances.len() - i,
        {
            let inst = &self.instances[i];
            if needle.len() == 0 || holds_lowercase(inst.name.as_str(), &needle) || holds_lowercase(
                inst.id.as_str(),
                &needle,
            ) || holds_lowercase(inst.instance_type.as_str(), &needle) {
                let ghost before = referred(shown@);
                shown.push(inst);
                assert(referred(shown@) =~= before.push(*inst));
            }
            i += 1;
        }
        shown
    }

    /// The selected one of the instances that pass the filter.
    pub fn selected_instance(&self) -> (r: Option<&Instance>)
        ensures
            ({
                let shown = filtered(
                    self.instances@,
                    self.instance_filter@,
                    self.instances@.len() as int,
                );
                match r {
                    Some(inst) => self.instance_selected < shown.len() && *inst
                        == shown[self.instance_selected as int],
                    None => self.instance_selected >= shown.len(),
                }
            }),
    {
        let shown = self.filtered_instances();
        if self.instance_selected < shown.len() {
            Some(shown[self.instance_selected])
        } else {
            None
        }
    }

    /// The selected tunnel.
    pub fn selected_tunnel(&self) -> (r: Option<&TunnelProcess>)
        ensures
            match r {
                Some(tp) => self.tunnel_selected < self.tunnels@.len() && *tp
                    == self.tunnels@[self.tunnel_selected as int],
                None => self.tunnel_selected >= self.tunnels@.len(),
            },
    {
        if self.tunnel_selected < self.tunnels.len() {
            Some(&self.tunnels[self.tunnel_selected])
        } else {
            None
        }
    }

    /// Moves the spinner on by one frame, and asks for the tunnels to be
    /// detected again on every 75th tick.
    pub fn tick_spinner(&mut self) -> (request: Option<Request>)
        ensures
            tick_effect(*old(self), *final(self), opt_request(request)),
    {
        self.spinner_tick = if self.spinner_tick == 255 {
            0
        } else {
            self.spinner_tick + 1
        };
        self.tunnel_refresh_ticks = if self.tunnel_refresh_ticks == 0xffff_ffff {
            0
        } else {
            self.tunnel_refresh_ticks + 1
        };
        if self.tunnel_refresh_ticks >= TUNNEL_REFRESH_TICKS {
            self.tunnel_refresh_ticks = 0;
            Some(self.refresh_tunnels())
        } else {
            None
        }
    }
}

} // verus!
