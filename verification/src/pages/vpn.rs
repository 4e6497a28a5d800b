//! The VPN tab: connect, disconnect, set up, and look at the status.

use vstd::prelude::*;
use vstd::string::StringExecFns;
use crate::decimal::{decimal_digits, push_decimal};
use crate::error::{message_of, AppError};
use crate::models::opt_text;
use crate::text::{trim, trimmed};
use crate::tui::{
    asks, input_popup, loading_popup, no_requests, one_request, request_views, result_popup,
    same_but_popup, shows, waits, App, InputTag, Key, KeyCode, Request, RequestView, VpnConfig,
    VpnProbe,
};

verus! {

/// How many actions there are.
pub const VPN_ACTION_COUNT: usize = 4;

/// The name and the description of each action, in the order of the list.
pub fn vpn_actions() -> (list: [(&'static str, &'static str); 4])
    ensures
        list@[0].0@ == "Connect"@ && list@[0].1@ == "Connect to VPN (enter MFA code)"@,
        list@[1].0@ == "Disconnect"@ && list@[1].1@ == "Disconnect active VPN session"@,
        list@[2].0@ == "Setup"@ && list@[2].1@ == "Configure SSO credentials and .ovpn path"@,
        list@[3].0@ == "Status"@ && list@[3].1@ == "Check VPN connection status"@,
{
    [
        ("Connect", "Connect to VPN (enter MFA code)"),
        ("Disconnect", "Disconnect active VPN session"),
        ("Setup", "Configure SSO credentials and .ovpn path"),
        ("Status", "Check VPN connection status"),
    ]
}

/// An address, or what stands for an unknown one.
pub open spec fn address_or(ip: Option<Seq<char>>, unknown: Seq<char>) -> Seq<char> {
    match ip {
        Some(a) => a,
        None => unknown,
    }
}

/// A process id, or `?` for an unknown one.
pub open spec fn pid_or_unknown(pid: Option<u32>) -> Seq<char> {
    match pid {
        Some(p) => decimal_digits(p as nat),
        None => "?"@,
    }
}

/// The report of the VPN's status.
pub open spec fn status_report(probe: VpnProbe, pid: Option<u32>) -> Seq<char> {
    if probe.connected {
        "VPN: CONNECTED\nIP: "@ + address_or(opt_text(probe.ip), "unknown"@) + "\nPID: "@
            + pid_or_unknown(pid)
    } else {
        "VPN: DISCONNECTED"@
    }
}

/// The status line of a VPN that was looked at.
pub open spec fn probed_status_line(probe: VpnProbe, unknown: Seq<char>) -> Seq<char> {
    if probe.connected {
        "CONNECTED ("@ + address_or(opt_text(probe.ip), unknown) + ")"@
    } else {
        "DISCONNECTED"@
    }
}

fn push_address(line: &mut String, ip: &Option<String>, unknown: &str)
    ensures
        final(line)@ == old(line)@ + address_or(opt_text(*ip), unknown@),
{
    match ip {
        Some(a) => {
            line.append(a.as_str());
        },
        None => {
            line.append(unknown);
        },
    }
}

/// Takes in what a look at the VPN found. The status line follows it;
/// where `show` is set, a report is shown as well.
pub fn vpn_probed(app: &mut App, probe: &VpnProbe, pid: Option<u32>, show: bool)
    ensures
        final(app).vpn_status@ == probed_status_line(
            *probe,
            if show {
                "unknown"@
            } else {
                "?"@
            },
        ),
        show ==> shows(final(app).popup, "VPN Status"@, status_report(*probe, pid), false),
        !show ==> final(app).popup == old(app).popup,
        *final(app) == (App {
            vpn_status: final(app).vpn_status,
            popup: final(app).popup,
            ..*old(app)
        }),
{
    let mut status = String::new();
    if probe.connected {
        status.append("CONNECTED (");
        push_address(
            &mut status,
            &probe.ip,
            if show {
                "unknown"
            } else {
                "?"
            },
        );
        status.append(")");
    } else {
        status.append("DISCONNECTED");
    }
    assert(status@ =~= probed_status_line(
        *probe,
        if show {
            "unknown"@
        } else {
            "?"@
        },
    ));
    app.vpn_status = status;
    if show {
        let mut report = String::new();
        if probe.connected {
            report.append("VPN: CONNECTED\nIP: ");
            push_address(&mut report, &probe.ip, "unknown");
            report.append("\nPID: ");
            match pid {
                Some(p) => {
                    push_decimal(&mut report, p as u64);
                },
                None => {
                    report.append("?");
                },
            }
        } else {
            report.append("VPN: DISCONNECTED");
        }
        assert(report@ =~= status_report(*probe, pid));
        app.popup = result_popup("VPN Status", report, false);
    }
}

/// How a connection that succeeded is reported.
pub open spec fn connected_line(ip: Option<Seq<char>>, pid: u32) -> Seq<char> {
    "VPN connected!\nIP: "@ + address_or(ip, "?"@) + "\nPID: "@ + decimal_digits(pid as nat)
}

pub fn connected_text(ip: &Option<String>, pid: u32) -> (line: String)
    ensures
        line@ == connected_line(opt_text(*ip), pid),
{
    let mut line = String::from_str("VPN connected!\nIP: ");
    push_address(&mut line, ip, "?");
    line.append("\nPID: ");
    push_decimal(&mut line, pid as u64);
    assert(line@ =~= connected_line(opt_text(*ip), pid));
    line
}

/// What the selected action leads to. Connecting needs a set-up and asks
/// for the MFA code; disconnecting is asked for at once; setting up asks
/// for the user name first; the status is asked to be looked at and shown.
pub open spec fn action_effect(before: App, after: App, requests: Seq<RequestView>) -> bool {
    let action = before.vpn_selected;
    if action == 0 {
        requests.len() == 0 && same_but_popup(before, after) && (if before.vpn_config.ovpn_path@.len()
            == 0 || before.vpn_config.sso_username@.len() == 0 {
            shows(
                after.popup,
                "VPN Setup Required"@,
                "Run Setup first to configure credentials and .ovpn path."@,
                true,
            )
        } else {
            asks(
                after.popup,
                "VPN MFA Code"@,
                "6-digit code from authenticator"@,
                ""@,
                InputTag::VpnMfaCode,
            )
        })
    } else if action == 1 {
        &&& requests == seq![RequestView::VpnDisconnect]
        &&& after.vpn_status@ == "DISCONNECTED"@
        &&& shows(after.popup, "VPN"@, "VPN disconnected."@, false)
        &&& after == (App { vpn_status: after.vpn_status, popup: after.popup, ..before })
    } else if action == 2 {
        requests.len() == 0 && same_but_popup(before, after) && asks(
            after.popup,
            "SSO Username/Email"@,
            "e.g. user@company.com"@,
            before.vpn_config.sso_username@,
            InputTag::VpnSetupUsername,
        )
    } else if action == 3 {
        requests == seq![RequestView::VpnStatus { show: true }] && after == before
    } else {
        requests.len() == 0 && after == before
    }
}

/// The state differs from the one before in the selection on the VPN tab
/// at most, which is `selected`.
pub open spec fn selects(before: App, after: App, selected: int) -> bool {
    after.vpn_selected == selected && after == (App {
        vpn_selected: after.vpn_selected,
        ..before
    })
}

/// What a key on the VPN tab leads to: it moves the selection within the
/// list, runs the selected action, or asks for the status line to be
/// brought up to date.
pub open spec fn key_effect(before: App, after: App, key: Key, requests: Seq<RequestView>) -> bool {
    let selected = before.vpn_selected as int;
    match key.code {
        KeyCode::Up | KeyCode::Char('k') => requests.len() == 0 && selects(
            before,
            after,
            if selected > 0 {
                selected - 1
            } else {
                0
            },
        ),
        KeyCode::Down | KeyCode::Char('j') => requests.len() == 0 && selects(
            before,
            after,
            if selected + 1 < 4 {
                selected + 1
            } else {
                selected
            },
        ),
        KeyCode::Enter => action_effect(before, after, requests),
        KeyCode::Char('r') => requests == seq![RequestView::VpnStatus { show: false }] && after
            == before,
        _ => requests.len() == 0 && after == before,
    }
}

/// The state differs from the one before in the popup and in one member
/// of the VPN's configuration at most.
pub open spec fn set_up(before: App, after: App) -> bool {
    after == (App { vpn_config: after.vpn_config, popup: after.popup, ..before })
}

/// What an entered value leads to on the VPN tab. An MFA code that is not
/// blank asks for the connection. The steps of the set-up keep the user
/// name, the password and the path in turn, each asking for the next, and
/// the last asks for the configuration to be saved. A value of another tab
/// changes nothing.
pub open spec fn input_effect(
    before: App,
    after: App,
    tag: InputTag,
    value: Seq<char>,
    requests: Seq<RequestView>,
) -> bool {
    let c = before.vpn_config;
    match tag {
        InputTag::VpnMfaCode => if trimmed(value).len() == 0 {
            requests.len() == 0 && after == before
        } else {
            &&& requests == seq![RequestView::VpnConnect { mfa_code: trimmed(value) }]
            &&& waits(after.popup, "[1/5] Preparing VPN config..."@)
            &&& same_but_popup(before, after)
        },
        InputTag::VpnSetupUsername => {
            &&& requests.len() == 0
            &&& set_up(before, after)
            &&& after.vpn_config.sso_username@ == value
            &&& after.vpn_config == (VpnConfig {
                sso_username: after.vpn_config.sso_username,
                ..c
            })
            &&& asks(
                after.popup,
                "SSO Password"@,
                "your SSO password"@,
                c.sso_password@,
                InputTag::VpnSetupPassword,
            )
        },
        InputTag::VpnSetupPassword => {
            &&& requests.len() == 0
            &&& set_up(before, after)
            &&& after.vpn_config.sso_password@ == value
            &&& after.vpn_config == (VpnConfig {
                sso_password: after.vpn_config.sso_password,
                ..c
            })
            &&& asks(
                after.popup,
                "Path to .ovpn file"@,
                "e.g. /path/to/client.ovpn"@,
                c.ovpn_path@,
                InputTag::VpnSetupOvpnPath,
            )
        },
        InputTag::VpnSetupOvpnPath => {
            &&& requests == seq![RequestView::SaveVpnConfig]
            &&& after.vpn_config.ovpn_path@ == value
            &&& after.vpn_config == (VpnConfig { ovpn_path: after.vpn_config.ovpn_path, ..c })
            &&& after == (App { vpn_config: after.vpn_config, ..before })
        },
        _ => requests.len() == 0 && after == before,
    }
}

/// What the selected action does. Connecting needs a set-up and asks for
/// the MFA code; disconnecting is asked for at once; setting up asks for
/// the user name first; the status is asked to be looked at and shown.
pub fn execute_action(app: &mut App) -> (requests: Vec<Request>)
    ensures
        action_effect(*old(app), *final(app), request_views(requests@)),
{
    let action = app.vpn_selected;
    if action == 0 {
        if app.vpn_config.ovpn_path.as_str().unicode_len() == 0
            || app.vpn_config.sso_username.as_str().unicode_len() == 0 {
            app.popup = result_popup(
                "VPN Setup Required",
                String::from_str("Run Setup first to configure credentials and .ovpn path."),
                true,
            );
        } else {
            app.popup = input_popup(
                "VPN MFA Code",
                "6-digit code from authenticator",
                "",
                InputTag::VpnMfaCode,
            );
        }
        no_requests()
    } else if action == 1 {
        app.vpn_status = String::from_str("DISCONNECTED");
        app.popup = result_popup("VPN", String::from_str("VPN disconnected."), false);
        one_request(Request::VpnDisconnect)
    } else if action == 2 {
        app.popup = input_popup(
            "SSO Username/Email",
            "e.g. user@company.com",
            app.vpn_config.sso_username.as_str(),
            InputTag::VpnSetupUsername,
        );
        no_requests()
    } else if action == 3 {
        one_request(Request::VpnStatus { show: true })
    } else {
        no_requests()
    }
}

/// What a key does on the VPN tab: moves the selection within the list,
/// runs the selected action, or asks for the status line to be brought up
/// to date.
pub fn handle_key(app: &mut App, key: Key) -> (requests: Vec<Request>)
    ensures
        key_effect(*old(app), *final(app), key, request_views(requests@)),
{
    match key.code {
        KeyCode::Up => {
            if app.vpn_selected > 0 {
                app.vpn_selected = app.vpn_selected - 1;
            }
            no_requests()
        },
        KeyCode::Down => {
            if app.vpn_selected < VPN_ACTION_COUNT - 1 {
                app.vpn_selected = app.vpn_selected + 1;
            }
            no_requests()
        },
        KeyCode::Enter => execute_action(app),
        KeyCode::Char(c) => {
            if c == 'k' {
                if app.vpn_selected > 0 {
                    app.vpn_selected = app.vpn_selected - 1;
                }
                no_requests()
            } else if c == 'j' {
                if app.vpn_selected < VPN_ACTION_COUNT - 1 {
                    app.vpn_selected = app.vpn_selected + 1;
                }
                no_requests()
            } else if c == 'r' {
                one_request(Request::VpnStatus { show: false })
            } else {
                no_requests()
            }
        },
        _ => no_requests(),
    }
}

/// What an entered value does on the VPN tab. An MFA code that is not
/// blank asks for the connection. The steps of the set-up keep the user
/// name, the password and the path in turn, each asking for the next, and
/// the last asks for the configuration to be saved.
pub fn handle_input(app: &mut App, tag: InputTag, value: String) -> (requests: Vec<Request>)
    ensures
        input_effect(*old(app), *final(app), tag, value@, request_views(requests@)),
{
    match tag {
        InputTag::VpnMfaCode => {
            let mfa_code = trim(value.as_str());
            if mfa_code.as_str().unicode_len() == 0 {
                return no_requests();
            }
            app.popup = loading_popup(String::from_str("[1/5] Preparing VPN config..."));
            one_request(Request::VpnConnect { mfa_code })
        },
        InputTag::VpnSetupUsername => {
            app.vpn_config.sso_username = value;
            app.popup = input_popup(
                "SSO Password",
                "your SSO password",
                app.vpn_config.sso_password.as_str(),
                InputTag::VpnSetupPassword,
            );
            no_requests()
        },
        InputTag::VpnSetupPassword => {
            app.vpn_config.sso_password = value;
            app.popup = input_popup(
                "Path to .ovpn file",
                "e.g. /path/to/client.ovpn",
                app.vpn_config.ovpn_path.as_str(),
                InputTag::VpnSetupOvpnPath,
            );
            no_requests()
        },
        InputTag::VpnSetupOvpnPath => {
            app.vpn_config.ovpn_path = value;
            one_request(Request::SaveVpnConfig)
        },
        _ => no_requests(),
    }
}

/// How a saved configuration is reported.
pub open spec fn saved_line(config: VpnConfig) -> Seq<char> {
    "Config saved!\nUsername: "@ + config.sso_username@ + "\nOVPN: "@ + config.ovpn_path@
}

/// Shows whether the configuration was saved.
pub fn config_saved(app: &mut App, outcome: Result<(), AppError>)
    ensures
        same_but_popup(*old(app), *final(app)),
        match outcome {
            Ok(_) => shows(final(app).popup, "VPN Setup"@, saved_line(old(app).vpn_config), false),
            Err(e) => shows(final(app).popup, "VPN Setup Error"@, message_of(e@), true),
        },
{
    match outcome {
        Ok(_) => {
            let mut body = String::from_str("Config saved!\nUsername: ");
            body.append(app.vpn_config.sso_username.as_str());
            body.append("\nOVPN: ");
            body.append(app.vpn_config.ovpn_path.as_str());
            app.popup = result_popup("VPN Setup", body, false);
        },
        Err(e) => {
            app.popup = result_popup("VPN Setup Error", e.message(), true);
        },
    }
}

} // verus!
