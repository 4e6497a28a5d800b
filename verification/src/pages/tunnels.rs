//! The tunnels tab: the list of tunnels, and the wizards that start one.

use vstd::prelude::*;
use vstd::string::StringExecFns;
use crate::decimal::{decimal_digits, parse_decimal, parse_u16, push_decimal};
use crate::models::opt_text;
use crate::text::chars_of;
use crate::tui::{
    action_views, asks, confirm_popup, confirms, input_popup, keep_within, kept_within,
    loading_popup, no_requests, one_request, request_views, same_but_popup,
    same_but_tunnel_selection, same_but_wizard, waits, App, ConfirmTag, InputTag, Key, KeyCode,
    Request, RequestView, WizardBuf,
};
use crate::tunnel::{agent_name, stop_all_tunnels, stop_tunnel, TunnelAction, TunnelActionView};

verus! {

/// How the stop of one tunnel is reported.
pub open spec fn stopped_line(pid: u32) -> Seq<char> {
    "Stopped tunnel PID "@ + decimal_digits(pid as nat)
}

/// What confirming a stop on the tunnels tab leads to. A stop that was
/// not confirmed changes nothing. A confirmed stop of one tunnel
/// terminates its agent and takes it off the list; a confirmed stop of all
/// terminates every known agent and every process of the agent's name, and
/// empties the list.
pub open spec fn confirm_effect(
    before: App,
    after: App,
    tag: ConfirmTag,
    confirmed: bool,
    actions: Seq<TunnelActionView>,
) -> bool {
    if !confirmed {
        actions.len() == 0 && after == before
    } else {
        match tag {
            ConfirmTag::StopTunnel(idx) => if idx < before.tunnels@.len() {
                &&& actions == seq![TunnelActionView::Kill { pid: before.tunnels@[idx as int].pid }]
                &&& after.tunnels@ == before.tunnels@.remove(idx as int)
                &&& after.tunnel_selected == kept_within(
                    before.tunnel_selected,
                    (before.tunnels@.len() - 1) as nat,
                )
                &&& opt_text(after.status_msg) == Some(
                    stopped_line(before.tunnels@[idx as int].pid),
                )
                &&& after == (App {
                    tunnels: after.tunnels,
                    tunnel_selected: after.tunnel_selected,
                    status_msg: after.status_msg,
                    ..before
                })
            } else {
                actions.len() == 0 && after == before
            },
            ConfirmTag::StopAllTunnels => {
                &&& actions.len() == before.tunnels@.len() + 1
                &&& forall|i: int|
                    0 <= i < before.tunnels@.len() ==> #[trigger] actions[i] == (
                    TunnelActionView::Kill { pid: before.tunnels@[i].pid })
                &&& actions[before.tunnels@.len() as int] == (TunnelActionView::KillByName {
                    name: agent_name(),
                })
                &&& after.tunnels@.len() == 0
                &&& opt_text(after.status_msg) == Some("All tunnels stopped"@)
                &&& after == (App {
                    tunnels: after.tunnels,
                    tunnel_selected: 0,
                    status_msg: after.status_msg,
                    ..before
                })
            },
            _ => actions.len() == 0 && after == before,
        }
    }
}

/// What confirming a stop on the tunnels tab does. A stop that was not
/// confirmed does nothing. A confirmed stop of one tunnel terminates its
/// agent and takes it off the list; a confirmed stop of all terminates
/// every known agent and every process of the agent's name, and empties the
/// list.
pub fn handle_confirm(app: &mut App, tag: ConfirmTag, confirmed: bool) -> (actions: Vec<
    TunnelAction,
>)
    ensures
        confirm_effect(*old(app), *final(app), tag, confirmed, action_views(actions@)),
{
    let mut actions: Vec<TunnelAction> = Vec::new();
    if !confirmed {
        return actions;
    }
    match tag {
        ConfirmTag::StopTunnel(idx) => {
            if idx < app.tunnels.len() {
                let pid = app.tunnels[idx].pid;
                actions.push(stop_tunnel(pid));
                assert(action_views(actions@) =~= seq![TunnelActionView::Kill { pid }]);
                app.tunnels.remove(idx);
                app.tunnel_selected = keep_within(app.tunnel_selected, app.tunnels.len());
                let mut line = String::from_str("Stopped tunnel PID ");
                push_decimal(&mut line, pid as u64);
                app.status_msg = Some(line);
            }
            actions
        },
        ConfirmTag::StopAllTunnels => {
            let all = stop_all_tunnels(app.tunnels.as_slice());
            app.tunnels.clear();
            app.tunnel_selected = 0;
            app.status_msg = Some(String::from_str("All tunnels stopped"));
            all
        },
        _ => actions,
    }
}

// ── Wizards ──────────────────────────────────────────────────────────────

/// The port that an entered text stands for, or `default` where the text
/// is no port number.
pub open spec fn port_or_default(text: Seq<char>, default: u16) -> u16 {
    match parse_decimal(text, 65535) {
        Some(n) => n as u16,
        None => default,
    }
}

/// The port that an entered text stands for, if it is a port number.
pub open spec fn port_if_given(text: Seq<char>) -> Option<u16> {
    match parse_decimal(text, 65535) {
        Some(n) => Some(n as u16),
        None => None,
    }
}

fn entered_port(text: &str) -> (r: Option<u16>)
    ensures
        r == port_if_given(text@),
{
    let digits = chars_of(text);
    parse_u16(&digits)
}

fn entered_port_or(text: &str, default: u16) -> (r: u16)
    ensures
        r == port_or_default(text@, default),
{
    match entered_port(text) {
        Some(p) => p,
        None => default,
    }
}

/// Nothing is entered in the wizard.
pub open spec fn is_blank(w: WizardBuf) -> bool {
    &&& w.pattern@.len() == 0
    &&& w.local_port@.len() == 0
    &&& w.remote_port@.len() == 0
    &&& w.url@.len() == 0
    &&& w.bastion@.len() == 0
    &&& w.host@.len() == 0
}

/// Starts the wizard for a tunnel to an instance: forgets what an earlier
/// wizard took in, and asks for the name pattern.
pub fn start_wizard_by_instance(app: &mut App)
    ensures
        asks(
            final(app).popup,
            "New Tunnel \u{2014} Instance Name Pattern"@,
            "e.g. web-server, bastion"@,
            ""@,
            InputTag::NewTunnelPattern,
        ),
        is_blank(final(app).wizard_buf),
        same_but_wizard(*old(app), *final(app)),
{
    app.wizard_buf = WizardBuf::empty();
    app.popup = input_popup(
        "New Tunnel \u{2014} Instance Name Pattern",
        "e.g. web-server, bastion",
        "",
        InputTag::NewTunnelPattern,
    );
}

/// Starts the wizard for a tunnel to a URL.
pub fn start_wizard_by_url(app: &mut App)
    ensures
        asks(
            final(app).popup,
            "New Tunnel \u{2014} Target URL (auto-selects bastion)"@,
            "e.g. http://mlflow.internal.example.com/"@,
            ""@,
            InputTag::NewTunnelUrl,
        ),
        is_blank(final(app).wizard_buf),
        same_but_wizard(*old(app), *final(app)),
{
    app.wizard_buf = WizardBuf::empty();
    app.popup = input_popup(
        "New Tunnel \u{2014} Target URL (auto-selects bastion)",
        "e.g. http://mlflow.internal.example.com/",
        "",
        InputTag::NewTunnelUrl,
    );
}

/// Starts the wizard for a tunnel through a bastion.
pub fn start_wizard_by_bastion(app: &mut App)
    ensures
        asks(
            final(app).popup,
            "Remote Tunnel \u{2014} Bastion Name Pattern"@,
            "e.g. bastion"@,
            ""@,
            InputTag::NewTunnelBastionPattern,
        ),
        is_blank(final(app).wizard_buf),
        same_but_wizard(*old(app), *final(app)),
{
    app.wizard_buf = WizardBuf::empty();
    app.popup = input_popup(
        "Remote Tunnel \u{2014} Bastion Name Pattern",
        "e.g. bastion",
        "",
        InputTag::NewTunnelBastionPattern,
    );
}

/// The question before one tunnel is stopped.
pub open spec fn stop_question(local_port: u16, instance_name: Seq<char>) -> Seq<char> {
    "Stop tunnel localhost:"@ + decimal_digits(local_port as nat) + " -> "@ + instance_name + "?"@
}

/// The question before all tunnels are stopped.
pub open spec fn stop_all_question(count: nat) -> Seq<char> {
    "Stop all "@ + decimal_digits(count) + " active tunnel(s)?"@
}

/// Asks whether the selected tunnel is to be stopped; does nothing where
/// none is selected.
pub fn confirm_stop_tunnel(app: &mut App)
    ensures
        same_but_popup(*old(app), *final(app)),
        old(app).tunnel_selected < old(app).tunnels@.len() ==> confirms(
            final(app).popup,
            stop_question(
                old(app).tunnels@[old(app).tunnel_selected as int].local_port,
                old(app).tunnels@[old(app).tunnel_selected as int].instance_name@,
            ),
            ConfirmTag::StopTunnel(old(app).tunnel_selected),
        ),
        old(app).tunnel_selected >= old(app).tunnels@.len() ==> final(app).popup == old(app).popup,
{
    let idx = app.tunnel_selected;
    if idx < app.tunnels.len() {
        let mut message = String::from_str("Stop tunnel localhost:");
        push_decimal(&mut message, app.tunnels[idx].local_port as u64);
        message.append(" -> ");
        message.append(app.tunnels[idx].instance_name.as_str());
        message.append("?");
        assert(message@ =~= stop_question(
            app.tunnels@[idx as int].local_port,
            app.tunnels@[idx as int].instance_name@,
        ));
        app.popup = confirm_popup(message, ConfirmTag::StopTunnel(idx));
    }
}

/// Asks whether all tunnels are to be stopped; does nothing where there is
/// none.
pub fn confirm_stop_all(app: &mut App)
    ensures
        same_but_popup(*old(app), *final(app)),
        old(app).tunnels@.len() > 0 ==> confirms(
            final(app).popup,
            stop_all_question(old(app).tunnels@.len()),
            ConfirmTag::StopAllTunnels,
        ),
        old(app).tunnels@.len() == 0 ==> final(app).popup == old(app).popup,
{
    if app.tunnels.len() > 0 {
        let mut message = String::from_str("Stop all ");
        push_decimal(&mut message, app.tunnels.len() as u64);
        message.append(" active tunnel(s)?");
        assert(message@ =~= stop_all_question(app.tunnels@.len()));
        app.popup = confirm_popup(message, ConfirmTag::StopAllTunnels);
    }
}

/// What a key on the tunnels tab leads to.
pub open spec fn key_effect(before: App, after: App, key: Key, requests: Seq<RequestView>) -> bool {
    &&& (match key.code {
            KeyCode::Up | KeyCode::Char('k') => {
                &&& requests.len() == 0
                &&& same_but_tunnel_selection(before, after)
                &&& before.tunnel_selected > 0 ==> after.tunnel_selected == before.tunnel_selected - 1
                &&& before.tunnel_selected == 0 ==> after.tunnel_selected == 0
            },
            KeyCode::Down | KeyCode::Char('j') => {
                &&& requests.len() == 0
                &&& same_but_tunnel_selection(before, after)
                &&& before.tunnel_selected + 1 < before.tunnels@.len() ==> after.tunnel_selected == before.tunnel_selected + 1
                &&& before.tunnel_selected + 1 >= before.tunnels@.len() ==> after.tunnel_selected == before.tunnel_selected
            },
            KeyCode::Char('r') => requests == seq![RequestView::LoadTunnels]
                && after == before,
            KeyCode::Char('n') => requests.len() == 0 && same_but_wizard(
                before,
                after,
            ) && asks(
                after.popup,
                "New Tunnel \u{2014} Instance Name Pattern"@,
                "e.g. web-server, bastion"@,
                ""@,
                InputTag::NewTunnelPattern,
            ),
            KeyCode::Char('u') => requests.len() == 0 && same_but_wizard(
                before,
                after,
            ) && asks(
                after.popup,
                "New Tunnel \u{2014} Target URL (auto-selects bastion)"@,
                "e.g. http://mlflow.internal.example.com/"@,
                ""@,
                InputTag::NewTunnelUrl,
            ),
            KeyCode::Char('b') => requests.len() == 0 && same_but_wizard(
                before,
                after,
            ) && asks(
                after.popup,
                "Remote Tunnel \u{2014} Bastion Name Pattern"@,
                "e.g. bastion"@,
                ""@,
                InputTag::NewTunnelBastionPattern,
            ),
            KeyCode::Char('d') | KeyCode::Delete => {
                &&& requests.len() == 0
                &&& same_but_popup(before, after)
                &&& before.tunnel_selected < before.tunnels@.len() ==> confirms(
                    after.popup,
                    stop_question(
                        before.tunnels@[before.tunnel_selected as int].local_port,
                        before.tunnels@[before.tunnel_selected as int].instance_name@,
                    ),
                    ConfirmTag::StopTunnel(before.tunnel_selected),
                )
                &&& before.tunnel_selected >= before.tunnels@.len() ==> after.popup
                    == before.popup
            },
            KeyCode::Char('A') => {
                &&& requests.len() == 0
                &&& same_but_popup(before, after)
                &&& before.tunnels@.len() > 0 ==> confirms(
                    after.popup,
                    stop_all_question(before.tunnels@.len()),
                    ConfirmTag::StopAllTunnels,
                )
                &&& before.tunnels@.len() == 0 ==> after.popup == before.popup
            },
            _ => requests.len() == 0 && after == before,
        })
}

/// What a key does on the tunnels tab: moves the selection within the
/// list, asks for the tunnels again, starts a wizard, or asks before
/// stopping.
pub fn handle_key(app: &mut App, key: Key) -> (requests: Vec<Request>)
    ensures
        key_effect(*old(app), *final(app), key, request_views(requests@)),
{
    match key.code {
        KeyCode::Up => {
            if app.tunnel_selected > 0 {
                app.tunnel_selected = app.tunnel_selected - 1;
            }
            no_requests()
        },
        KeyCode::Down => {
            if app.tunnel_selected < app.tunnels.len() && app.tunnel_selected + 1 < app.tunnels.len() {
                app.tunnel_selected = app.tunnel_selected + 1;
            }
            no_requests()
        },
        KeyCode::Delete => {
            confirm_stop_tunnel(app);
            no_requests()
        },
        KeyCode::Char(c) => {
            if c == 'k' {
                if app.tunnel_selected > 0 {
                    app.tunnel_selected = app.tunnel_selected - 1;
                }
                no_requests()
            } else if c == 'j' {
                if app.tunnel_selected < app.tunnels.len() && app.tunnel_selected + 1 < app.tunnels.len() {
                    app.tunnel_selected = app.tunnel_selected + 1;
                }
                no_requests()
            } else if c == 'r' {
                one_request(app.refresh_tunnels())
            } else if c == 'n' {
                start_wizard_by_instance(app);
                no_requests()
            } else if c == 'u' {
                start_wizard_by_url(app);
                no_requests()
            } else if c == 'b' {
                start_wizard_by_bastion(app);
                no_requests()
            } else if c == 'd' {
                confirm_stop_tunnel(app);
                no_requests()
            } else if c == 'A' {
                confirm_stop_all(app);
                no_requests()
            } else {
                no_requests()
            }
        },
        _ => no_requests(),
    }
}

/// The popup that asks for the next value of a wizard.
pub open spec fn next_step(
    after: App,
    title: Seq<char>,
    placeholder: Seq<char>,
    value: Seq<char>,
    tag: InputTag,
    requests: Seq<RequestView>,
) -> bool {
    requests.len() == 0 && asks(after.popup, title, placeholder, value, tag)
}

/// What an entered value leads to in a wizard of the tunnels tab: every
/// step but the last keeps the value and asks for the next; the last step
/// asks for the tunnel to be started. A port that is no port number stands
/// for the default of its step. A value of another tab changes nothing.
pub open spec fn input_effect(
    before: App,
    after: App,
    tag: InputTag,
    value: Seq<char>,
    requests: Seq<RequestView>,
) -> bool {
    let w = before.wizard_buf;
    match tag {
        InputTag::NewTunnelPattern => {
            &&& same_but_wizard(before, after)
            &&& after.wizard_buf.pattern@ == value
            &&& after.wizard_buf == (WizardBuf { pattern: after.wizard_buf.pattern, ..w })
            &&& next_step(
                after,
                "New Tunnel \u{2014} Local Port"@,
                "e.g. 18000"@,
                ""@,
                InputTag::NewTunnelLocalPort,
                requests,
            )
        },
        InputTag::NewTunnelLocalPort => {
            &&& same_but_wizard(before, after)
            &&& after.wizard_buf.local_port@ == value
            &&& after.wizard_buf == (WizardBuf { local_port: after.wizard_buf.local_port, ..w })
            &&& next_step(
                after,
                "New Tunnel \u{2014} Remote Port"@,
                "e.g. 8000"@,
                "8000"@,
                InputTag::NewTunnelRemotePort,
                requests,
            )
        },
        InputTag::NewTunnelRemotePort => {
            &&& same_but_wizard(before, after)
            &&& after.wizard_buf.remote_port@ == value
            &&& after.wizard_buf == (WizardBuf { remote_port: after.wizard_buf.remote_port, ..w })
            &&& requests == seq![
                RequestView::TunnelByPattern {
                    pattern: w.pattern@,
                    local_port: port_or_default(w.local_port@, 18000),
                    remote_port: port_or_default(value, 8000),
                },
            ]
            &&& waits(after.popup, "Connecting to *"@ + w.pattern@ + "*..."@)
        },
        InputTag::NewTunnelUrl => {
            &&& same_but_wizard(before, after)
            &&& after.wizard_buf.url@ == value
            &&& after.wizard_buf == (WizardBuf { url: after.wizard_buf.url, ..w })
            &&& next_step(
                after,
                "New Tunnel \u{2014} Local Port"@,
                "e.g. 8080"@,
                "8080"@,
                InputTag::NewTunnelUrlLocalPort,
                requests,
            )
        },
        InputTag::NewTunnelUrlLocalPort => {
            &&& same_but_wizard(before, after)
            &&& after.wizard_buf.local_port@ == value
            &&& after.wizard_buf == (WizardBuf { local_port: after.wizard_buf.local_port, ..w })
            &&& next_step(
                after,
                "New Tunnel \u{2014} Remote Port (blank = auto-detect)"@,
                "e.g. 8501 (leave empty to auto-detect)"@,
                ""@,
                InputTag::NewTunnelUrlRemotePort,
                requests,
            )
        },
        InputTag::NewTunnelUrlRemotePort => {
            &&& same_but_wizard(before, after)
            &&& after.wizard_buf.remote_port@ == value
            &&& after.wizard_buf == (WizardBuf { remote_port: after.wizard_buf.remote_port, ..w })
            &&& requests == seq![
                RequestView::TunnelByUrl {
                    url: w.url@,
                    local_port: port_or_default(w.local_port@, 8080),
                    remote_port: port_if_given(value),
                },
            ]
            &&& waits(after.popup, "Resolving via ALB / bastions..."@)
        },
        InputTag::NewTunnelBastionPattern => {
            &&& same_but_wizard(before, after)
            &&& after.wizard_buf.bastion@ == value
            &&& after.wizard_buf == (WizardBuf { bastion: after.wizard_buf.bastion, ..w })
            &&& next_step(
                after,
                "Remote Tunnel \u{2014} Target Host (private IP)"@,
                "e.g. 10.0.1.42"@,
                ""@,
                InputTag::NewTunnelBastionHost,
                requests,
            )
        },
        InputTag::NewTunnelBastionHost => {
            &&& same_but_wizard(before, after)
            &&& after.wizard_buf.host@ == value
            &&& after.wizard_buf == (WizardBuf { host: after.wizard_buf.host, ..w })
            &&& next_step(
                after,
                "Remote Tunnel \u{2014} Local Port"@,
                "e.g. 8501"@,
                "8501"@,
                InputTag::NewTunnelBastionLocalPort,
                requests,
            )
        },
        InputTag::NewTunnelBastionLocalPort => {
            &&& same_but_wizard(before, after)
            &&& after.wizard_buf.local_port@ == value
            &&& after.wizard_buf == (WizardBuf { local_port: after.wizard_buf.local_port, ..w })
            &&& next_step(
                after,
                "Remote Tunnel \u{2014} Remote Port"@,
                "e.g. 8501"@,
                "8501"@,
                InputTag::NewTunnelBastionRemotePort,
                requests,
            )
        },
        InputTag::NewTunnelBastionRemotePort => {
            &&& same_but_wizard(before, after)
            &&& after.wizard_buf.remote_port@ == value
            &&& after.wizard_buf == (WizardBuf { remote_port: after.wizard_buf.remote_port, ..w })
            &&& requests == seq![
                RequestView::TunnelViaBastion {
                    bastion: w.bastion@,
                    host: w.host@,
                    local_port: port_or_default(w.local_port@, 8501),
                    remote_port: port_or_default(value, 8501),
                },
            ]
            &&& waits(after.popup, "Connecting via "@ + w.bastion@ + "..."@)
        },
        _ => requests.len() == 0 && after == before,
    }
}

/// What an entered value does in a wizard of the tunnels tab: every step
/// but the last keeps the value and asks for the next; the last step asks
/// for the tunnel to be started. A port that is no port number stands for
/// the default of its step.
pub fn handle_input(app: &mut App, tag: InputTag, value: String) -> (requests: Vec<Request>)
    ensures
        input_effect(*old(app), *final(app), tag, value@, request_views(requests@)),
{
    match tag {
        InputTag::NewTunnelPattern => {
            app.wizard_buf.pattern = value;
            app.popup = input_popup(
                "New Tunnel \u{2014} Local Port",
                "e.g. 18000",
                "",
                InputTag::NewTunnelLocalPort,
            );
            no_requests()
        },
        InputTag::NewTunnelLocalPort => {
            app.wizard_buf.local_port = value;
            app.popup = input_popup(
                "New Tunnel \u{2014} Remote Port",
                "e.g. 8000",
                "8000",
                InputTag::NewTunnelRemotePort,
            );
            no_requests()
        },
        InputTag::NewTunnelRemotePort => {
            let remote_port = entered_port_or(value.as_str(), 8000);
            app.wizard_buf.remote_port = value;
            let local_port = entered_port_or(app.wizard_buf.local_port.as_str(), 18000);
            let mut message = String::from_str("Connecting to *");
            message.append(app.wizard_buf.pattern.as_str());
            message.append("*...");
            app.popup = loading_popup(message);
            one_request(
                Request::TunnelByPattern {
                    pattern: app.wizard_buf.pattern.clone(),
                    local_port,
                    remote_port,
                },
            )
        },
        InputTag::NewTunnelUrl => {
            app.wizard_buf.url = value;
            app.popup = input_popup(
                "New Tunnel \u{2014} Local Port",
                "e.g. 8080",
                "8080",
                InputTag::NewTunnelUrlLocalPort,
            );
            no_requests()
        },
        InputTag::NewTunnelUrlLocalPort => {
            app.wizard_buf.local_port = value;
            app.popup = input_popup(
                "New Tunnel \u{2014} Remote Port (blank = auto-detect)",
                "e.g. 8501 (leave empty to auto-detect)",
                "",
                InputTag::NewTunnelUrlRemotePort,
            );
            no_requests()
        },
        InputTag::NewTunnelUrlRemotePort => {
            let remote_port = entered_port(value.as_str());
            app.wizard_buf.remote_port = value;
            let local_port = entered_port_or(app.wizard_buf.local_port.as_str(), 8080);
            app.popup = loading_popup(String::from_str("Resolving via ALB / bastions..."));
            one_request(
                Request::TunnelByUrl { url: app.wizard_buf.url.clone(), local_port, remote_port },
            )
        },
        InputTag::NewTunnelBastionPattern => {
            app.wizard_buf.bastion = value;
            app.popup = input_popup(
                "Remote Tunnel \u{2014} Target Host (private IP)",
                "e.g. 10.0.1.42",
                "",
                InputTag::NewTunnelBastionHost,
            );
            no_requests()
        },
        InputTag::NewTunnelBastionHost => {
            app.wizard_buf.host = value;
            app.popup = input_popup(
                "Remote Tunnel \u{2014} Local Port",
                "e.g. 8501",
                "8501",
                InputTag::NewTunnelBastionLocalPort,
            );
            no_requests()
        },
        InputTag::NewTunnelBastionLocalPort => {
            app.wizard_buf.local_port = value;
            app.popup = input_popup(
                "Remote Tunnel \u{2014} Remote Port",
                "e.g. 8501",
                "8501",
                InputTag::NewTunnelBastionRemotePort,
            );
            no_requests()
        },
        InputTag::NewTunnelBastionRemotePort => {
            let remote_port = entered_port_or(value.as_str(), 8501);
            app.wizard_buf.remote_port = value;
            let local_port = entered_port_or(app.wizard_buf.local_port.as_str(), 8501);
            let mut message = String::from_str("Connecting via ");
            message.append(app.wizard_buf.bastion.as_str());
            message.append("...");
            app.popup = loading_popup(message);
            one_request(
                Request::TunnelViaBastion {
                    bastion: app.wizard_buf.bastion.clone(),
                    host: app.wizard_buf.host.clone(),
                    local_port,
                    remote_port,
                },
            )
        },
        _ => no_requests(),
    }
}

} // verus!
