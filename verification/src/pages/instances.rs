//! The instances tab: the list of instances, its filter, and the actions on
//! the selected instance.

use vstd::prelude::*;
use vstd::string::StringExecFns;
use crate::models::Instance;
use crate::text::{chars_of, string_from};
use crate::tui::{
    confirm_popup, confirms, filtered, no_requests, one_request, request_views, same_but_popup, App,
    ConfirmTag, Key, KeyCode, Request, RequestView,
};

verus! {

/// The instances that the tab shows.
pub open spec fn shown(app: App) -> Seq<Instance> {
    filtered(app.instances@, app.instance_filter@, app.instances@.len() as int)
}

/// The question before an instance is stopped.
pub open spec fn stop_question(name: Seq<char>, id: Seq<char>, force: bool) -> Seq<char> {
    if force {
        "Force-stop '"@ + name + "' ("@ + id + ")?\nThis may cause data loss!"@
    } else {
        "Stop '"@ + name + "'?"@
    }
}

/// What is shown while an instance is started.
pub open spec fn starting_line(name: Seq<char>) -> Seq<char> {
    "Starting "@ + name + "..."@
}

/// What is shown while an instance is stopped.
pub open spec fn stopping_line(force: bool) -> Seq<char> {
    if force {
        "Force-stopping..."@
    } else {
        "Stopping..."@
    }
}

/// How a start that succeeded is reported.
pub open spec fn started_line(name: Seq<char>) -> Seq<char> {
    "Started "@ + name
}

/// How a stop that succeeded is reported.
pub open spec fn stopped_line(name: Seq<char>, force: bool) -> Seq<char> {
    (if force {
        "Force-stopped"@
    } else {
        "Stopped"@
    }) + " "@ + name
}

pub fn started_text(name: &str) -> (line: String)
    ensures
        line@ == started_line(name@),
{
    String::from_str("Started ").concat(name)
}

pub fn stopped_text(name: &str, force: bool) -> (line: String)
    ensures
        line@ == stopped_line(name@, force),
{
    let mut line = if force {
        String::from_str("Force-stopped")
    } else {
        String::from_str("Stopped")
    };
    line.append(" ");
    line.append(name);
    line
}

/// The text without its last character; the empty text stays empty.
pub open spec fn shortened(text: Seq<char>) -> Seq<char> {
    if text.len() > 0 {
        text.drop_last()
    } else {
        text
    }
}

pub fn without_last(text: &str) -> (r: String)
    ensures
        r@ == shortened(text@),
{
    let v = chars_of(text);
    if v.len() > 0 {
        let r = string_from(&v, 0, v.len() - 1);
        assert(v@.subrange(0, v.len() - 1) =~= v@.drop_last());
        r
    } else {
        let r = String::new();
        assert(r@ =~= text@);
        r
    }
}

/// The state shows that instances are asked for or acted on, and is
/// otherwise unchanged.
pub open spec fn busy_with(before: App, after: App, message: Seq<char>) -> bool {
    after.loading_message@ == message && after == (App {
        loading: true,
        loading_message: after.loading_message,
        ..before
    })
}

/// What starting the selected instance leads to: it is asked to be
/// started, and that this goes on is shown; nothing where none is
/// selected.
pub open spec fn start_effect(before: App, after: App, requests: Seq<RequestView>) -> bool {
    if before.instance_selected < shown(before).len() {
        let inst = shown(before)[before.instance_selected as int];
        requests == seq![RequestView::StartInstance { id: inst.id@, name: inst.name@ }]
            && busy_with(before, after, starting_line(inst.name@))
    } else {
        requests.len() == 0 && after == before
    }
}

/// What asking to stop the selected instance leads to: the question is
/// put; nothing where none is selected.
pub open spec fn stop_asked(before: App, after: App, force: bool) -> bool {
    if before.instance_selected < shown(before).len() {
        let inst = shown(before)[before.instance_selected as int];
        same_but_popup(before, after) && confirms(
            after.popup,
            stop_question(inst.name@, inst.id@, force),
            if force {
                ConfirmTag::ForceStopInstance
            } else {
                ConfirmTag::StopInstance
            },
        )
    } else {
        after == before
    }
}

/// What confirming a stop on the instances tab leads to: the selected
/// instance is asked to be stopped, and that this goes on is shown. A stop
/// that was not confirmed, or without a selected instance, changes nothing.
pub open spec fn confirm_effect(
    before: App,
    after: App,
    tag: ConfirmTag,
    confirmed: bool,
    requests: Seq<RequestView>,
) -> bool {
    let stops = tag == ConfirmTag::StopInstance || tag == ConfirmTag::ForceStopInstance;
    if confirmed && stops && before.instance_selected < shown(before).len() {
        let inst = shown(before)[before.instance_selected as int];
        let force = tag == ConfirmTag::ForceStopInstance;
        requests == seq![RequestView::StopInstance { id: inst.id@, name: inst.name@, force }]
            && busy_with(before, after, stopping_line(force))
    } else {
        requests.len() == 0 && after == before
    }
}

/// What a key leads to while the filter is entered: `Esc` drops the
/// filter, `Enter` keeps it, `Backspace` takes its last character off, and
/// a character joins it and moves the selection to the top.
pub open spec fn filter_key_effect(before: App, after: App, key: Key) -> bool {
    match key.code {
        KeyCode::Esc => after.instance_filter@.len() == 0 && after == (App {
            instance_filter_active: false,
            instance_filter: after.instance_filter,
            ..before
        }),
        KeyCode::Enter => after == (App { instance_filter_active: false, ..before }),
        KeyCode::Backspace => after.instance_filter@ == shortened(before.instance_filter@)
            && after == (App { instance_filter: after.instance_filter, ..before }),
        KeyCode::Char(c) => after.instance_filter@ == before.instance_filter@.push(c) && after
            == (App { instance_filter: after.instance_filter, instance_selected: 0, ..before }),
        _ => after == before,
    }
}

/// The state differs from the one before in the selection on the instances
/// tab at most, which is `selected`.
pub open spec fn selects(before: App, after: App, selected: int) -> bool {
    after.instance_selected == selected && after == (App {
        instance_selected: after.instance_selected,
        ..before
    })
}

/// What a key on the instances tab leads to. While the filter is entered
/// the key goes to the filter. Else it moves the selection within the shown
/// instances, asks for the instances again, opens or drops the filter, or
/// starts or stops the selected instance.
pub open spec fn key_effect(before: App, after: App, key: Key, requests: Seq<RequestView>) -> bool {
    let selected = before.instance_selected as int;
    let count = shown(before).len() as int;
    if before.instance_filter_active {
        requests.len() == 0 && filter_key_effect(before, after, key)
    } else {
        match key.code {
            KeyCode::Up | KeyCode::Char('k') => requests.len() == 0 && selects(
                before,
                after,
                if selected > 0 {
                    selected - 1
                } else {
                    0
                },
            ),
            KeyCode::Down | KeyCode::Char('j') => requests.len() == 0 && selects(
                before,
                after,
                if selected + 1 < count {
                    selected + 1
                } else {
                    selected
                },
            ),
            KeyCode::Char('g') => requests.len() == 0 && selects(before, after, 0),
            KeyCode::Char('G') => requests.len() == 0 && selects(
                before,
                after,
                if count == 0 {
                    0
                } else {
                    count - 1
                },
            ),
            KeyCode::Char('r') => requests == seq![RequestView::LoadInstances] && busy_with(
                before,
                after,
                "Loading instances..."@,
            ),
            KeyCode::Char('/') => requests.len() == 0 && after.instance_filter@.len() == 0 && after
                == (App {
                instance_filter_active: true,
                instance_filter: after.instance_filter,
                ..before
            }),
            KeyCode::Esc => requests.len() == 0 && after.instance_filter@.len() == 0 && after == (
            App { instance_filter: after.instance_filter, ..before }),
            KeyCode::Char('s') => start_effect(before, after, requests),
            KeyCode::Char('S') => requests.len() == 0 && stop_asked(before, after, false),
            KeyCode::Char('f') => requests.len() == 0 && stop_asked(before, after, true),
            _ => requests.len() == 0 && after == before,
        }
    }
}

/// Asks for the selected instance to be started, and shows that this goes
/// on; does nothing where none is selected.
pub fn action_start(app: &mut App) -> (requests: Vec<Request>)
    ensures
        start_effect(*old(app), *final(app), request_views(requests@)),
{
    let (id, name) = match app.selected_instance() {
        Some(inst) => (inst.id.clone(), inst.name.clone()),
        None => {
            return no_requests();
        },
    };
    let mut message = String::from_str("Starting ");
    message.append(name.as_str());
    message.append("...");
    app.loading = true;
    app.loading_message = message;
    one_request(Request::StartInstance { id, name })
}

/// Asks whether the selected instance is to be stopped; does nothing where
/// none is selected.
pub fn action_stop(app: &mut App, force: bool)
    ensures
        stop_asked(*old(app), *final(app), force),
{
    let message = match app.selected_instance() {
        Some(inst) => {
            if force {
                let mut m = String::from_str("Force-stop '");
                m.append(inst.name.as_str());
                m.append("' (");
                m.append(inst.id.as_str());
                m.append(")?\nThis may cause data loss!");
                m
            } else {
                let mut m = String::from_str("Stop '");
                m.append(inst.name.as_str());
                m.append("'?");
                m
            }
        },
        None => {
            return ;
        },
    };
    app.popup = confirm_popup(
        message,
        if force {
            ConfirmTag::ForceStopInstance
        } else {
            ConfirmTag::StopInstance
        },
    );
}

/// What confirming a stop on the instances tab does: asks for the selected
/// instance to be stopped, and shows that this goes on. A stop that was not
/// confirmed, or without a selected instance, does nothing.
pub fn handle_confirm(app: &mut App, tag: ConfirmTag, confirmed: bool) -> (requests: Vec<Request>)
    ensures
        confirm_effect(*old(app), *final(app), tag, confirmed, request_views(requests@)),
{
    if !confirmed {
        return no_requests();
    }
    let force = match tag {
        ConfirmTag::StopInstance => false,
        ConfirmTag::ForceStopInstance => true,
        _ => {
            return no_requests();
        },
    };
    let (id, name) = match app.selected_instance() {
        Some(inst) => (inst.id.clone(), inst.name.clone()),
        None => {
            return no_requests();
        },
    };
    app.loading = true;
    app.loading_message = if force {
        String::from_str("Force-stopping...")
    } else {
        String::from_str("Stopping...")
    };
    one_request(Request::StopInstance { id, name, force })
}

/// What a key does while the filter is entered: `Esc` drops the filter,
/// `Enter` keeps it, `Backspace` takes its last character off, and a
/// character joins it and moves the selection to the top.
pub fn handle_filter_key(app: &mut App, key: Key)
    ensures
        filter_key_effect(*old(app), *final(app), key),
{
    match key.code {
        KeyCode::Esc => {
            app.instance_filter_active = false;
            app.instance_filter = String::new();
        },
        KeyCode::Enter => {
            app.instance_filter_active = false;
        },
        KeyCode::Backspace => {
            app.instance_filter = without_last(app.instance_filter.as_str());
        },
        KeyCode::Char(c) => {
            let mut filter = app.instance_filter.clone();
            filter.push(c);
            app.instance_filter = filter;
            app.instance_selected = 0;
        },
        _ => {},
    }
}

/// What a key does on the instances tab. While the filter is entered the
/// key goes to the filter. Else it moves the selection within the shown
/// instances, asks for the instances again, opens or drops the filter, or
/// starts or stops the selected instance.
pub fn handle_key(app: &mut App, key: Key) -> (requests: Vec<Request>)
    ensures
        key_effect(*old(app), *final(app), key, request_views(requests@)),
{
    if app.instance_filter_active {
        handle_filter_key(app, key);
        return no_requests();
    }
    match key.code {
        KeyCode::Up => {
            if app.instance_selected > 0 {
                app.instance_selected = app.instance_selected - 1;
            }
            no_requests()
        },
        KeyCode::Down => {
            move_down(app);
            no_requests()
        },
        KeyCode::Esc => {
            app.instance_filter = String::new();
            no_requests()
        },
        KeyCode::Char(c) => {
            if c == 'k' {
                if app.instance_selected > 0 {
                    app.instance_selected = app.instance_selected - 1;
                }
                no_requests()
            } else if c == 'j' {
                move_down(app);
                no_requests()
            } else if c == 'g' {
                app.instance_selected = 0;
                no_requests()
            } else if c == 'G' {
                let count = app.filtered_instances().len();
                app.instance_selected = if count == 0 {
                    0
                } else {
                    count - 1
                };
                no_requests()
            } else if c == 'r' {
                one_request(app.refresh_instances())
            } else if c == '/' {
                app.instance_filter_active = true;
                app.instance_filter = String::new();
                no_requests()
            } else if c == 's' {
                action_start(app)
            } else if c == 'S' {
                action_stop(app, false);
                no_requests()
            } else if c == 'f' {
                action_stop(app, true);
                no_requests()
            } else {
                no_requests()
            }
        },
        _ => no_requests(),
    }
}

fn move_down(app: &mut App)
    ensures
        selects(
            *old(app),
            *final(app),
            if old(app).instance_selected + 1 < shown(*old(app)).len() {
                old(app).instance_selected + 1
            } else {
                old(app).instance_selected as int
            },
        ),
{
    let count = app.filtered_instances().len();
    if app.instance_selected < count && app.instance_selected + 1 < count {
        app.instance_selected = app.instance_selected + 1;
    }
}

} // verus!
