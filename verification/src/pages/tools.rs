//! The tools tab: a list of tools, and what each does.

use vstd::prelude::*;
use vstd::string::StringExecFns;
use crate::decimal::{decimal_digits, push_decimal};
use crate::models::{opt_text, texts};
use crate::pages::tunnels::port_or_default;
use crate::text::{chars_of, trim, trimmed};
use crate::tui::{
    action_views, asks, input_popup, loading_popup, no_requests, one_request, request_views,
    result_popup, same_but_popup, shows, waits, App, InputTag, Key, KeyCode, Popup, Request,
    RequestView,
};
use crate::tunnel::{agent_name, stop_all_tunnels, TunnelActionView};

verus! {

/// How many tools there are.
pub const TOOL_COUNT: usize = 6;

/// The name and the description of each tool, in the order of the list.
pub fn tools() -> (list: [(&'static str, &'static str); 6])
    ensures
        list@[0].0@ == "Switch Profile"@ && list@[0].1@
            == "Change active AWS profile (reads ~/.aws/config)"@,
        list@[1].0@ == "Switch Region"@ && list@[1].1@
            == "Change active AWS region (e.g. us-east-1)"@,
        list@[2].0@ == "Login"@ && list@[2].1@ == "Run aws sso login for a profile"@,
        list@[3].0@ == "Resolve URL"@ && list@[3].1@ == "Trace DNS -> EC2 / ALB / Fargate"@,
        list@[4].0@ == "Test Port"@ && list@[4].1@ == "Check if a local tunnel port is open"@,
        list@[5].0@ == "Stop All Tunnels"@ && list@[5].1@
            == "Kill all session-manager-plugin processes"@,
{
    [
        ("Switch Profile", "Change active AWS profile (reads ~/.aws/config)"),
        ("Switch Region", "Change active AWS region (e.g. us-east-1)"),
        ("Login", "Run aws sso login for a profile"),
        ("Resolve URL", "Trace DNS -> EC2 / ALB / Fargate"),
        ("Test Port", "Check if a local tunnel port is open"),
        ("Stop All Tunnels", "Kill all session-manager-plugin processes"),
    ]
}

/// Index of the first of the first `n` items that is `x`, or `n`.
pub open spec fn position_of(items: Seq<Seq<char>>, x: Seq<char>, from: int) -> int
    decreases items.len() - from,
{
    if from < 0 || from >= items.len() {
        items.len() as int
    } else if items[from] == x {
        from
    } else {
        position_of(items, x, from + 1)
    }
}

/// Offers the profiles to choose from, with the current one selected, or
/// the first where the current one is not among them.
pub fn show_profiles(app: &mut App, profiles: Vec<String>)
    ensures
        same_but_popup(*old(app), *final(app)),
        final(app).popup matches Popup::Select { title, items, selected, tag } && {
            &&& title@ == "Switch AWS Profile"@
            &&& items == profiles
            &&& tag == InputTag::SwitchProfile
            &&& selected == (if position_of(texts(profiles@), old(app).profile@, 0)
                < profiles@.len() {
                position_of(texts(profiles@), old(app).profile@, 0)
            } else {
                0
            })
        },
{
    let current = app.profile.clone();
    let mut i: usize = 0;
    while i < profiles.len() && !(profiles[i] == current)
        invariant
            i <= profiles.len(),
            current@ == app.profile@,
            position_of(texts(profiles@), current@, 0) == position_of(
                texts(profiles@),
                current@,
                i as int,
            ),
        decreases profiles.len() - i,
    {
        assert(texts(profiles@)[i as int] == profiles@[i as int]@);
        i += 1;
    }
    proof {
        if i < profiles.len() {
            assert(texts(profiles@)[i as int] == profiles@[i as int]@);
        }
    }
    let selected = if i < profiles.len() {
        i
    } else {
        0
    };
    app.popup = Popup::Select {
        title: String::from_str("Switch AWS Profile"),
        items: profiles,
        selected,
        tag: InputTag::SwitchProfile,
    };
}

/// What the selected tool leads to: most ask for a value first; the last
/// terminates every forwarding agent at once.
pub open spec fn tool_effect(before: App, after: App, requests: Seq<RequestView>) -> bool {
    let tool = before.tool_selected;
    if tool == 0 {
        requests == seq![RequestView::ListProfiles] && after == before
    } else if tool == 1 {
        requests.len() == 0 && same_but_popup(before, after) && asks(
            after.popup,
            "Switch AWS Region"@,
            "e.g. us-east-1, ap-northeast-1"@,
            before.region@,
            InputTag::SwitchRegion,
        )
    } else if tool == 2 {
        requests.len() == 0 && same_but_popup(before, after) && asks(
            after.popup,
            "AWS SSO Login \u{2014} Profile"@,
            before.profile@,
            before.profile@,
            InputTag::LoginProfile,
        )
    } else if tool == 3 {
        requests.len() == 0 && same_but_popup(before, after) && asks(
            after.popup,
            "Resolve URL or Hostname"@,
            "e.g. https://app.internal.example.com/"@,
            ""@,
            InputTag::ResolveUrl,
        )
    } else if tool == 4 {
        requests.len() == 0 && same_but_popup(before, after) && asks(
            after.popup,
            "Test Local Port"@,
            "e.g. 18000"@,
            ""@,
            InputTag::TestPort,
        )
    } else if tool == 5 {
        &&& same_but_popup(before, after)
        &&& requests.len() == 2
        &&& requests[0] matches RequestView::Perform(actions)
        &&& actions.len() == before.tunnels@.len() + 1
        &&& forall|i: int|
            0 <= i < before.tunnels@.len() ==> #[trigger] actions[i] == (TunnelActionView::Kill {
                pid: before.tunnels@[i].pid,
            })
        &&& actions[before.tunnels@.len() as int] == (TunnelActionView::KillByName {
            name: agent_name(),
        })
        &&& requests[1] == RequestView::LoadTunnels
        &&& shows(after.popup, "Done"@, "All SSM tunnel processes stopped."@, false)
    } else {
        requests.len() == 0 && after == before
    }
}

/// The state differs from the one before in the selection on the tools tab
/// at most, which is `selected`.
pub open spec fn selects(before: App, after: App, selected: int) -> bool {
    after.tool_selected == selected && after == (App {
        tool_selected: after.tool_selected,
        ..before
    })
}

/// What a key on the tools tab leads to: it moves the selection within the
/// list, or runs the selected tool.
pub open spec fn key_effect(before: App, after: App, key: Key, requests: Seq<RequestView>) -> bool {
    let selected = before.tool_selected as int;
    match key.code {
        KeyCode::Up | KeyCode::Char('k') => requests.len() == 0 && selects(
            before,
            after,
            if selected > 0 {
                selected - 1
            } else {
                0
            },
        ),
        KeyCode::Down | KeyCode::Char('j') => requests.len() == 0 && selects(
            before,
            after,
            if selected + 1 < 6 {
                selected + 1
            } else {
                selected
            },
        ),
        KeyCode::Enter => tool_effect(before, after, requests),
        _ => requests.len() == 0 && after == before,
    }
}

/// The state took a new profile or region, shows its announcement, and
/// shows that the instances are asked for again.
pub open spec fn refreshing(before: App, after: App, announcement: Seq<char>) -> bool {
    &&& opt_text(after.status_msg) == Some(announcement)
    &&& after.loading_message@ == "Loading instances..."@
    &&& after == (App {
        profile: after.profile,
        region: after.region,
        status_msg: after.status_msg,
        loading: true,
        loading_message: after.loading_message,
        ..before
    })
}

/// What an entered value leads to on the tools tab.
///
/// A profile or a region that is not empty becomes the current one, and
/// the instances are asked for again; a region is trimmed first. A login is
/// asked for with the profile entered, or with none where it is empty. A
/// URL is asked to be resolved. A port is asked to be tested; a text that
/// is no port number stands for port 0. A value of another tab changes
/// nothing.
pub open spec fn input_effect(
    before: App,
    after: App,
    tag: InputTag,
    value: Seq<char>,
    requests: Seq<RequestView>,
) -> bool {
    match tag {
        InputTag::SwitchProfile => if value.len() == 0 {
            requests.len() == 0 && after == before
        } else {
            &&& requests == seq![
                RequestView::UseProfile { profile: value },
                RequestView::LoadInstances,
            ]
            &&& after.profile@ == value
            &&& after.region == before.region
            &&& refreshing(before, after, profile_line(value))
        },
        InputTag::SwitchRegion => if trimmed(value).len() == 0 {
            requests.len() == 0 && after == before
        } else {
            &&& requests == seq![
                RequestView::UseRegion { region: trimmed(value) },
                RequestView::LoadInstances,
            ]
            &&& after.region@ == trimmed(value)
            &&& after.profile == before.profile
            &&& refreshing(before, after, region_line(trimmed(value)))
        },
        InputTag::LoginProfile => {
            &&& requests == seq![
                RequestView::Login {
                    profile: if value.len() == 0 {
                        None
                    } else {
                        Some(value)
                    },
                },
            ]
            &&& waits(after.popup, login_line(value))
            &&& same_but_popup(before, after)
        },
        InputTag::ResolveUrl => {
            &&& requests == seq![RequestView::ResolveUrl { url: value }]
            &&& waits(after.popup, resolving_line(value))
            &&& same_but_popup(before, after)
        },
        InputTag::TestPort => requests == seq![
            RequestView::TestPort { port: port_or_default(value, 0) },
        ] && after == before,
        _ => requests.len() == 0 && after == before,
    }
}

/// What the selected tool does: most ask for a value first; the last
/// terminates every forwarding agent at once.
pub fn execute_tool(app: &mut App) -> (requests: Vec<Request>)
    ensures
        tool_effect(*old(app), *final(app), request_views(requests@)),
{
    let tool = app.tool_selected;
    if tool == 0 {
        one_request(Request::ListProfiles)
    } else if tool == 1 {
        app.popup = input_popup(
            "Switch AWS Region",
            "e.g. us-east-1, ap-northeast-1",
            app.region.as_str(),
            InputTag::SwitchRegion,
        );
        no_requests()
    } else if tool == 2 {
        app.popup = input_popup(
            "AWS SSO Login \u{2014} Profile",
            app.profile.as_str(),
            app.profile.as_str(),
            InputTag::LoginProfile,
        );
        no_requests()
    } else if tool == 3 {
        app.popup = input_popup(
            "Resolve URL or Hostname",
            "e.g. https://app.internal.example.com/",
            "",
            InputTag::ResolveUrl,
        );
        no_requests()
    } else if tool == 4 {
        app.popup = input_popup("Test Local Port", "e.g. 18000", "", InputTag::TestPort);
        no_requests()
    } else if tool == 5 {
        let actions = stop_all_tunnels(app.tunnels.as_slice());
        let ghost views = action_views(actions@);
        app.popup = result_popup(
            "Done",
            String::from_str("All SSM tunnel processes stopped."),
            false,
        );
        let mut requests: Vec<Request> = Vec::new();
        requests.push(Request::Perform(actions));
        requests.push(app.refresh_tunnels());
        assert(request_views(requests@)[0] == RequestView::Perform(views));
        requests
    } else {
        no_requests()
    }
}

/// What a key does on the tools tab: moves the selection within the list,
/// or runs the selected tool.
pub fn handle_key(app: &mut App, key: Key) -> (requests: Vec<Request>)
    ensures
        key_effect(*old(app), *final(app), key, request_views(requests@)),
{
    match key.code {
        KeyCode::Up => {
            if app.tool_selected > 0 {
                app.tool_selected = app.tool_selected - 1;
            }
            no_requests()
        },
        KeyCode::Down => {
            if app.tool_selected < TOOL_COUNT - 1 {
                app.tool_selected = app.tool_selected + 1;
            }
            no_requests()
        },
        KeyCode::Enter => execute_tool(app),
        KeyCode::Char(c) => {
            if c == 'k' {
                if app.tool_selected > 0 {
                    app.tool_selected = app.tool_selected - 1;
                }
                no_requests()
            } else if c == 'j' {
                if app.tool_selected < TOOL_COUNT - 1 {
                    app.tool_selected = app.tool_selected + 1;
                }
                no_requests()
            } else {
                no_requests()
            }
        },
        _ => no_requests(),
    }
}

/// How a change of profile is announced.
pub open spec fn profile_line(profile: Seq<char>) -> Seq<char> {
    "Profile \u{2192} "@ + profile + "  (refreshing...)"@
}

/// How a change of region is announced.
pub open spec fn region_line(region: Seq<char>) -> Seq<char> {
    "Region \u{2192} "@ + region + "  (refreshing...)"@
}

/// What is shown while a login goes on.
pub open spec fn login_line(profile: Seq<char>) -> Seq<char> {
    "aws sso login --profile "@ + profile + "..."@
}

/// What is shown while a URL is resolved.
pub open spec fn resolving_line(url: Seq<char>) -> Seq<char> {
    "Resolving "@ + url + "..."@
}

/// What an entered value does on the tools tab.
///
/// A profile or a region that is not empty becomes the current one, and
/// the instances are asked for again; a region is trimmed first. A login is
/// asked for with the profile entered, or with none where it is empty. A
/// URL is asked to be resolved. A port is asked to be tested; a text that
/// is no port number stands for port 0.
pub fn handle_input(app: &mut App, tag: InputTag, value: String) -> (requests: Vec<Request>)
    ensures
        input_effect(*old(app), *final(app), tag, value@, request_views(requests@)),
{
    match tag {
        InputTag::SwitchProfile => {
            if value.as_str().unicode_len() == 0 {
                return no_requests();
            }
            let mut line = String::from_str("Profile \u{2192} ");
            line.append(value.as_str());
            line.append("  (refreshing...)");
            app.status_msg = Some(line);
            app.profile = value.clone();
            let mut requests: Vec<Request> = Vec::new();
            requests.push(Request::UseProfile { profile: value });
            requests.push(app.refresh_instances());
            assert(request_views(requests@) =~= seq![
                RequestView::UseProfile { profile: value@ },
                RequestView::LoadInstances,
            ]);
            requests
        },
        InputTag::SwitchRegion => {
            let region = trim(value.as_str());
            if region.as_str().unicode_len() == 0 {
                return no_requests();
            }
            let mut line = String::from_str("Region \u{2192} ");
            line.append(region.as_str());
            line.append("  (refreshing...)");
            app.status_msg = Some(line);
            app.region = region.clone();
            let mut requests: Vec<Request> = Vec::new();
            requests.push(Request::UseRegion { region });
            requests.push(app.refresh_instances());
            assert(request_views(requests@) =~= seq![
                RequestView::UseRegion { region: trimmed(value@) },
                RequestView::LoadInstances,
            ]);
            requests
        },
        InputTag::LoginProfile => {
            let mut line = String::from_str("aws sso login --profile ");
            line.append(value.as_str());
            line.append("...");
            app.popup = loading_popup(line);
            let profile = if value.as_str().unicode_len() == 0 {
                None
            } else {
                Some(value)
            };
            one_request(Request::Login { profile })
        },
        InputTag::ResolveUrl => {
            let mut line = String::from_str("Resolving ");
            line.append(value.as_str());
            line.append("...");
            app.popup = loading_popup(line);
            one_request(Request::ResolveUrl { url: value })
        },
        InputTag::TestPort => {
            let digits = chars_of(value.as_str());
            let port = match crate::decimal::parse_u16(&digits) {
                Some(p) => p,
                None => 0,
            };
            one_request(Request::TestPort { port })
        },
        _ => no_requests(),
    }
}

/// The title under which the test of a port is reported.
pub open spec fn port_test_title(port: u16) -> Seq<char> {
    "Port "@ + decimal_digits(port as nat) + " Test"@
}

/// What the test of a port found.
pub open spec fn port_test_line(port: u16, open: bool) -> Seq<char> {
    "Port "@ + decimal_digits(port as nat) + (if open {
        " is OPEN (tunnel active or service running)"@
    } else {
        " is CLOSED"@
    })
}

/// Shows what the test of a port found; a closed port is shown as a
/// failure.
pub fn port_tested(app: &mut App, port: u16, open: bool)
    ensures
        same_but_popup(*old(app), *final(app)),
        shows(final(app).popup, port_test_title(port), port_test_line(port, open), !open),
{
    let mut title = String::from_str("Port ");
    push_decimal(&mut title, port as u64);
    title.append(" Test");
    let mut body = String::from_str("Port ");
    push_decimal(&mut body, port as u64);
    if open {
        body.append(" is OPEN (tunnel active or service running)");
    } else {
        body.append(" is CLOSED");
    }
    app.popup = Popup::Result { title, body, is_error: !open };
}

} // verus!
