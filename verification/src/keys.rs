//! What a key does wherever it is pressed: in an open popup first, then
//! globally, then on the current tab.

use vstd::prelude::*;
use vstd::string::StringExecFns;
use crate::pages::instances::{shortened, without_last};
use crate::tui::{
    action_views, asks, no_requests, request_views, same_but_popup, tab_at, tab_index, App,
    ConfirmTag, InputTag, Key, KeyCode, Popup, Request, RequestView, Tab,
};
use crate::tunnel::TunnelActionView;

verus! {

/// What an entered value leads to: what it leads to on the tab that asked
/// for it.
pub open spec fn input_dispatched(
    before: App,
    after: App,
    tag: InputTag,
    value: Seq<char>,
    requests: Seq<RequestView>,
) -> bool {
    match tag {
        InputTag::LoginProfile | InputTag::ResolveUrl | InputTag::TestPort
        | InputTag::SwitchProfile | InputTag::SwitchRegion => crate::pages::tools::input_effect(
            before,
            after,
            tag,
            value,
            requests,
        ),
        InputTag::VpnMfaCode | InputTag::VpnSetupUsername | InputTag::VpnSetupPassword
        | InputTag::VpnSetupOvpnPath => crate::pages::vpn::input_effect(
            before,
            after,
            tag,
            value,
            requests,
        ),
        _ => crate::pages::tunnels::input_effect(before, after, tag, value, requests),
    }
}

/// What the answer to a question leads to: what it leads to on the tab
/// that asked. The agents that a confirmed stop of tunnels terminates are
/// asked to be terminated in one request.
pub open spec fn confirm_dispatched(
    before: App,
    after: App,
    tag: ConfirmTag,
    confirmed: bool,
    requests: Seq<RequestView>,
) -> bool {
    match tag {
        ConfirmTag::StopTunnel(_) | ConfirmTag::StopAllTunnels => if requests.len() == 0 {
            crate::pages::tunnels::confirm_effect(
                before,
                after,
                tag,
                confirmed,
                Seq::<TunnelActionView>::empty(),
            )
        } else {
            requests.len() == 1 && (requests[0] matches RequestView::Perform(actions)
                && actions.len() > 0 && crate::pages::tunnels::confirm_effect(
                before,
                after,
                tag,
                confirmed,
                actions,
            ))
        },
        _ => crate::pages::instances::confirm_effect(before, after, tag, confirmed, requests),
    }
}

/// Hands an entered value to the tab that asked for it.
pub fn dispatch_input(app: &mut App, tag: InputTag, value: String) -> (requests: Vec<Request>)
    ensures
        input_dispatched(*old(app), *final(app), tag, value@, request_views(requests@)),
{
    match tag {
        InputTag::LoginProfile | InputTag::ResolveUrl | InputTag::TestPort
        | InputTag::SwitchProfile | InputTag::SwitchRegion => crate::pages::tools::handle_input(
            app,
            tag,
            value,
        ),
        InputTag::NewTunnelPattern | InputTag::NewTunnelLocalPort | InputTag::NewTunnelRemotePort
        | InputTag::NewTunnelUrl | InputTag::NewTunnelUrlLocalPort
        | InputTag::NewTunnelUrlRemotePort | InputTag::NewTunnelBastionPattern
        | InputTag::NewTunnelBastionHost | InputTag::NewTunnelBastionLocalPort
        | InputTag::NewTunnelBastionRemotePort => crate::pages::tunnels::handle_input(
            app,
            tag,
            value,
        ),
        InputTag::VpnMfaCode | InputTag::VpnSetupUsername | InputTag::VpnSetupPassword
        | InputTag::VpnSetupOvpnPath => crate::pages::vpn::handle_input(app, tag, value),
    }
}

/// Hands the answer to a question to the tab that asked it.
pub fn dispatch_confirm(app: &mut App, tag: ConfirmTag, confirmed: bool) -> (requests: Vec<Request>)
    ensures
        confirm_dispatched(*old(app), *final(app), tag, confirmed, request_views(requests@)),
{
    match tag {
        ConfirmTag::StopTunnel(_) | ConfirmTag::StopAllTunnels => {
            let actions = crate::pages::tunnels::handle_confirm(app, tag, confirmed);
            if actions.len() == 0 {
                assert(action_views(actions@) =~= Seq::<TunnelActionView>::empty());
                no_requests()
            } else {
                let ghost views = action_views(actions@);
                let requests = crate::tui::one_request(Request::Perform(actions));
                assert(request_views(requests@)[0] == RequestView::Perform(views));
                requests
            }
        },
        ConfirmTag::StopInstance | ConfirmTag::ForceStopInstance => {
            crate::pages::instances::handle_confirm(app, tag, confirmed)
        },
    }
}

/// The popup after a key that only changes the popup itself.
pub open spec fn popup_after(popup: Popup, key: Key) -> Popup {
    match popup {
        Popup::Closed => popup,
        Popup::Help => match key.code {
            KeyCode::Esc | KeyCode::Char('q') | KeyCode::Char('?') => Popup::Closed,
            _ => popup,
        },
        Popup::Confirm { message, tag, selected_yes } => match key.code {
            KeyCode::Esc | KeyCode::Enter => Popup::Closed,
            KeyCode::Left | KeyCode::Right | KeyCode::Tab | KeyCode::Char('h')
            | KeyCode::Char('l') => Popup::Confirm { message, tag, selected_yes: !selected_yes },
            _ => popup,
        },
        Popup::Select { title, items, selected, tag } => match key.code {
            KeyCode::Esc | KeyCode::Enter => Popup::Closed,
            KeyCode::Up | KeyCode::Char('k') => Popup::Select {
                title,
                items,
                selected: if selected > 0 {
                    (selected - 1) as usize
                } else {
                    0usize
                },
                tag,
            },
            KeyCode::Down | KeyCode::Char('j') => Popup::Select {
                title,
                items,
                selected: if selected + 1 < items@.len() {
                    (selected + 1) as usize
                } else {
                    selected
                },
                tag,
            },
            _ => popup,
        },
        Popup::Result { .. } | Popup::Loading { .. } => match key.code {
            KeyCode::Esc | KeyCode::Enter => Popup::Closed,
            _ => popup,
        },
        Popup::Input { .. } => popup,
    }
}

/// The state with its popup closed.
pub open spec fn closed(app: App) -> App {
    App { popup: Popup::Closed, ..app }
}

/// The item of a list that is chosen; the empty text where the selection
/// is beyond the list.
pub open spec fn chosen(items: Seq<String>, selected: usize) -> Seq<char> {
    if selected < items.len() {
        items[selected as int]@
    } else {
        Seq::empty()
    }
}

/// The key quits.
pub open spec fn quits(key: Key) -> bool {
    key.code == KeyCode::Char('q') || (key.code == KeyCode::Char('c') && key.control)
}

/// What a key leads to without a popup: `q` and `Ctrl-C` quit, `?` opens
/// the help, `Tab` and `BackTab` change the tab, and every other key does
/// what it does on the current tab.
pub open spec fn plain_key_effect(before: App, after: App, key: Key, requests: Seq<RequestView>)
    -> bool {
    if quits(key) {
        requests.len() == 0 && after == (App { quit: true, ..before })
    } else if key.code == KeyCode::Char('?') {
        requests.len() == 0 && after == (App { popup: Popup::Help, ..before })
    } else if key.code == KeyCode::Tab && key.unmodified {
        requests.len() == 0 && after == (App {
            tab: tab_at(((tab_index(before.tab) + 1) % 4) as usize),
            ..before
        })
    } else if key.code == KeyCode::BackTab {
        requests.len() == 0 && after == (App {
            tab: tab_at(((tab_index(before.tab) + 3) % 4) as usize),
            ..before
        })
    } else {
        match before.tab {
            Tab::Instances => crate::pages::instances::key_effect(before, after, key, requests),
            Tab::Tunnels => crate::pages::tunnels::key_effect(before, after, key, requests),
            Tab::Tools => crate::pages::tools::key_effect(before, after, key, requests),
            Tab::Vpn => crate::pages::vpn::key_effect(before, after, key, requests),
        }
    }
}

/// What a key leads to.
///
/// An open popup takes every key. `Esc` closes it. A line of text takes
/// characters and loses its last one on `Backspace`; a question toggles
/// between yes and no; a list moves its selection; a help, result or
/// loading popup closes on its keys. `Enter` closes the popup and hands the
/// entered line, the answer, or the chosen item to the tab that asked.
///
/// Without a popup, the key does what `plain_key_effect` says.
pub open spec fn key_effect(before: App, after: App, key: Key, requests: Seq<RequestView>) -> bool {
    match before.popup {
        Popup::Closed => plain_key_effect(before, after, key, requests),
        Popup::Input { title, placeholder, value, tag } => match key.code {
            KeyCode::Esc => requests.len() == 0 && after == closed(before),
            KeyCode::Enter => input_dispatched(closed(before), after, tag, value@, requests),
            KeyCode::Backspace => requests.len() == 0 && same_but_popup(before, after) && asks(
                after.popup,
                title@,
                placeholder@,
                shortened(value@),
                tag,
            ),
            KeyCode::Char(c) => requests.len() == 0 && same_but_popup(before, after) && asks(
                after.popup,
                title@,
                placeholder@,
                value@.push(c),
                tag,
            ),
            _ => requests.len() == 0 && after == before,
        },
        Popup::Confirm { message, tag, selected_yes } => match key.code {
            KeyCode::Enter => confirm_dispatched(
                closed(before),
                after,
                tag,
                selected_yes,
                requests,
            ),
            _ => requests.len() == 0 && after == (App {
                popup: popup_after(before.popup, key),
                ..before
            }),
        },
        Popup::Select { title, items, selected, tag } => match key.code {
            KeyCode::Enter => input_dispatched(
                closed(before),
                after,
                tag,
                chosen(items@, selected),
                requests,
            ),
            _ => requests.len() == 0 && after == (App {
                popup: popup_after(before.popup, key),
                ..before
            }),
        },
        _ => requests.len() == 0 && after == (App {
            popup: popup_after(before.popup, key),
            ..before
        }),
    }
}

/// Takes a key: in an open popup first, then globally, then on the current
/// tab.
pub fn handle_global_key(app: &mut App, key: Key) -> (requests: Vec<Request>)
    ensures
        key_effect(*old(app), *final(app), key, request_views(requests@)),
{
    let mut popup = Popup::Closed;
    std::mem::swap(&mut app.popup, &mut popup);
    match popup {
        Popup::Closed => {},
        Popup::Help => {
            let close = match key.code {
                KeyCode::Esc => true,
                KeyCode::Char(c) => c == 'q' || c == '?',
                _ => false,
            };
            if !close {
                app.popup = Popup::Help;
            }
            return no_requests();
        },
        Popup::Input { title, placeholder, value, tag } => {
            match key.code {
                KeyCode::Esc => {
                    return no_requests();
                },
                KeyCode::Enter => {
                    return dispatch_input(app, tag, value);
                },
                KeyCode::Backspace => {
                    let shorter = without_last(value.as_str());
                    app.popup = Popup::Input { title, placeholder, value: shorter, tag };
                    return no_requests();
                },
                KeyCode::Char(c) => {
                    let mut longer = value;
                    longer.push(c);
                    app.popup = Popup::Input { title, placeholder, value: longer, tag };
                    return no_requests();
                },
                _ => {
                    app.popup = Popup::Input { title, placeholder, value, tag };
                    return no_requests();
                },
            }
        },
        Popup::Confirm { message, tag, selected_yes } => {
            let toggles = match key.code {
                KeyCode::Left => true,
                KeyCode::Right => true,
                KeyCode::Tab => true,
                KeyCode::Char(c) => c == 'h' || c == 'l',
                _ => false,
            };
            match key.code {
                KeyCode::Esc => {
                    return no_requests();
                },
                KeyCode::Enter => {
                    return dispatch_confirm(app, tag, selected_yes);
                },
                _ => {
                    app.popup = Popup::Confirm {
                        message,
                        tag,
                        selected_yes: if toggles {
                            !selected_yes
                        } else {
                            selected_yes
                        },
                    };
                    return no_requests();
                },
            }
        },
        Popup::Select { title, items, selected, tag } => {
            let up = match key.code {
                KeyCode::Up => true,
                KeyCode::Char(c) => c == 'k',
                _ => false,
            };
            let down = match key.code {
                KeyCode::Down => true,
                KeyCode::Char(c) => c == 'j',
                _ => false,
            };
            match key.code {
                KeyCode::Esc => {
                    return no_requests();
                },
                KeyCode::Enter => {
                    let value = if selected < items.len() {
                        items[selected].clone()
                    } else {
                        String::new()
                    };
                    return dispatch_input(app, tag, value);
                },
                _ => {
                    let moved = if up && selected > 0 {
                        selected - 1
                    } else if down && selected < items.len() && selected + 1 < items.len() {
                        selected + 1
                    } else {
                        selected
                    };
                    app.popup = Popup::Select { title, items, selected: moved, tag };
                    return no_requests();
                },
            }
        },
        Popup::Result { title, body, is_error } => {
            match key.code {
                KeyCode::Esc => {},
                KeyCode::Enter => {},
                _ => {
                    app.popup = Popup::Result { title, body, is_error };
                },
            }
            return no_requests();
        },
        Popup::Loading { message } => {
            match key.code {
                KeyCode::Esc => {},
                KeyCode::Enter => {},
                _ => {
                    app.popup = Popup::Loading { message };
                },
            }
            return no_requests();
        },
    }
    // no popup is open
    let quits = match key.code {
        KeyCode::Char(c) => c == 'q' || (c == 'c' && key.control),
        _ => false,
    };
    if quits {
        app.quit = true;
        return no_requests();
    }
    match key.code {
        KeyCode::Char(c) => {
            if c == '?' {
                app.popup = Popup::Help;
                return no_requests();
            }
        },
        KeyCode::Tab => {
            if key.unmodified {
                app.tab = app.tab.next();
                return no_requests();
            }
        },
        KeyCode::BackTab => {
            app.tab = app.tab.prev();
            return no_requests();
        },
        _ => {},
    }
    match app.tab {
        Tab::Instances => crate::pages::instances::handle_key(app, key),
        Tab::Tunnels => crate::pages::tunnels::handle_key(app, key),
        Tab::Tools => crate::pages::tools::handle_key(app, key),
        Tab::Vpn => crate::pages::vpn::handle_key(app, key),
    }
}

} // verus!
