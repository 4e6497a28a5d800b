use awsx2::error::AppError;
use awsx2::models::{Instance, InstanceState, SsmStatus, TunnelProcess};
use awsx2::pages::tunnels::handle_confirm;
use awsx2::tui::{
    spinner_char, started_text, vpn_status_text, App, BgMessage, ConfirmTag, Popup,
    Request, Tab, VpnConfig, VpnProbe, WizardBuf, TAB_COUNT, TUNNEL_REFRESH_TICKS,
};
use awsx2::tunnel::TunnelAction;

fn instance(id: &str, name: &str, kind: &str) -> Instance {
    Instance {
        id: id.to_string(),
        name: name.to_string(),
        instance_type: kind.to_string(),
        state: InstanceState::Running,
        private_ip: None,
        public_ip: None,
        ssm_status: SsmStatus::Online,
        tunnel: None,
        security_groups: vec![],
        security_group_ids: vec![],
    }
}

fn tunnel(pid: u32, local_port: u16) -> TunnelProcess {
    TunnelProcess {
        pid,
        local_port,
        remote_port: 80,
        remote_host: None,
        instance_id: "i-1".to_string(),
        instance_name: "web".to_string(),
        port_open: true,
        latency_ms: Some(12),
    }
}

fn down() -> VpnProbe {
    VpnProbe { connected: false, ip: None }
}

fn app() -> App {
    let config = VpnConfig {
        sso_username: String::new(),
        sso_password: String::new(),
        ovpn_path: String::new(),
        dns_server: String::new(),
        dns_domain: String::new(),
    };
    App::new("default".to_string(), "us-east-1".to_string(), config, &down())
}

fn result_of(popup: &Popup) -> (String, String, bool) {
    match popup {
        Popup::Result { title, body, is_error } => (title.clone(), body.clone(), *is_error),
        other => panic!("unexpected {:?}", other),
    }
}

#[test]
fn tabs_go_round_in_both_directions() {
    let all = [Tab::Instances, Tab::Tunnels, Tab::Tools, Tab::Vpn];
    assert_eq!(TAB_COUNT, 4);
    assert_eq!(Tab::titles(), ["Instances", "Tunnels", "Tools", "VPN"]);
    for (i, tab) in all.iter().enumerate() {
        assert_eq!(tab.index(), i);
        assert_eq!(Tab::from_index(i), *tab);
        assert_eq!(tab.next(), all[(i + 1) % 4]);
        assert_eq!(tab.prev(), all[(i + 3) % 4]);
        assert_eq!(tab.next().prev(), *tab);
        assert_eq!(tab.prev().next(), *tab);
    }
    assert_eq!(Tab::from_index(4), Tab::Instances);
    assert_eq!(Tab::from_index(usize::MAX), Tab::Instances);
}

#[test]
fn spinner_has_ten_frames() {
    let frames = ['⠋', '⠙', '⠹', '⠸', '⠼', '⠴', '⠦', '⠧', '⠇', '⠏'];
    for tick in 0..=255u8 {
        assert_eq!(spinner_char(tick), frames[(tick as usize) % 10]);
    }
}

#[test]
fn state_starts_empty_on_the_first_tab() {
    let a = app();
    assert_eq!(a.profile, "default");
    assert_eq!(a.region, "us-east-1");
    assert_eq!(a.tab, Tab::Instances);
    assert!(a.instances.is_empty() && a.tunnels.is_empty());
    assert!(matches!(a.popup, Popup::Closed));
    assert!(!a.loading && !a.quit);
    assert_eq!(a.vpn_status, "DISCONNECTED");
    assert!(a.status_msg.is_none());
    let w = WizardBuf::empty();
    assert!(w.pattern.is_empty() && w.url.is_empty() && w.host.is_empty());
}

#[test]
fn vpn_status_line_names_the_address() {
    assert_eq!(vpn_status_text(&down()), "DISCONNECTED");
    assert_eq!(
        vpn_status_text(&VpnProbe { connected: true, ip: Some("10.8.0.2".to_string()) }),
        "CONNECTED (10.8.0.2)"
    );
    assert_eq!(vpn_status_text(&VpnProbe { connected: true, ip: None }), "CONNECTED (?)");
    assert_eq!(
        vpn_status_text(&VpnProbe { connected: false, ip: Some("10.8.0.2".to_string()) }),
        "DISCONNECTED"
    );
}

#[test]
fn loaded_instances_replace_the_old_and_keep_the_selection_within() {
    let mut a = app();
    assert!(matches!(a.refresh_instances(), Request::LoadInstances));
    assert!(a.loading);
    assert_eq!(a.loading_message, "Loading instances...");
    a.instance_selected = 5;
    let loaded = vec![instance("i-1", "a", "t"), instance("i-2", "b", "t")];
    assert!(a.poll_bg(BgMessage::InstancesLoaded(Ok(loaded)), &down()).is_none());
    assert!(!a.loading);
    assert_eq!(a.instances.len(), 2);
    assert_eq!(a.instance_selected, 1);
    assert!(a.poll_bg(BgMessage::InstancesLoaded(Ok(vec![])), &down()).is_none());
    assert_eq!(a.instance_selected, 0);
}

#[test]
fn failures_of_background_work_are_shown() {
    let mut a = app();
    a.poll_bg(BgMessage::InstancesLoaded(Err(AppError::UpstreamQueryFailure("denied".into()))), &down());
    assert_eq!(result_of(&a.popup), ("Error".to_string(), "AWS CLI error: denied".to_string(), true));
    a.poll_bg(BgMessage::TunnelStarted(Err(AppError::PortNeverOpened(8080))), &down());
    assert_eq!(
        result_of(&a.popup),
        ("Tunnel Error".to_string(), "Port 8080 is not open after timeout".to_string(), true)
    );
    assert!(a.poll_bg(BgMessage::ActionDone(Err(AppError::NoInstance("x".into()))), &down()).is_none());
    assert_eq!(result_of(&a.popup).0, "Error");
    a.vpn_status = "CONNECTED (1.2.3.4)".to_string();
    a.poll_bg(BgMessage::VpnConnected(Err(AppError::Io("boom".into()))), &down());
    assert_eq!(result_of(&a.popup), ("VPN Error".to_string(), "IO error: boom".to_string(), true));
    assert_eq!(a.vpn_status, "DISCONNECTED");
}

#[test]
fn started_tunnel_joins_the_list_and_is_announced() {
    let mut a = app();
    a.loading = true;
    assert!(a.poll_bg(BgMessage::TunnelStarted(Ok(tunnel(7, 8080))), &down()).is_none());
    assert!(!a.loading);
    assert_eq!(a.tunnels.len(), 1);
    assert_eq!(a.tunnels[0].pid, 7);
    assert_eq!(
        result_of(&a.popup),
        ("Tunnel Started".to_string(), "localhost:8080 -> web:80 (12ms)".to_string(), false)
    );
    let mut remote = tunnel(8, 15432);
    remote.remote_host = Some("db.internal".to_string());
    remote.remote_port = 5432;
    remote.latency_ms = None;
    assert_eq!(started_text(&remote), "localhost:15432 -> db.internal:5432");
}

#[test]
fn finished_action_asks_for_the_instances_again() {
    let mut a = app();
    let request = a.poll_bg(BgMessage::ActionDone(Ok("Started web".to_string())), &down());
    assert!(matches!(request, Some(Request::LoadInstances)));
    assert!(a.loading);
    assert_eq!(result_of(&a.popup), ("Done".to_string(), "Started web".to_string(), false));
}

#[test]
fn vpn_answer_updates_the_status_line() {
    let mut a = app();
    let up = VpnProbe { connected: true, ip: Some("10.8.0.2".to_string()) };
    a.poll_bg(BgMessage::VpnConnected(Ok("VPN connected!".to_string())), &up);
    assert_eq!(a.vpn_status, "CONNECTED (10.8.0.2)");
    assert_eq!(result_of(&a.popup), ("VPN".to_string(), "VPN connected!".to_string(), false));
}

#[test]
fn loaded_tunnels_keep_the_selection_within() {
    let mut a = app();
    a.tunnel_selected = 3;
    a.poll_bg(BgMessage::TunnelsLoaded(vec![tunnel(1, 1), tunnel(2, 2)]), &down());
    assert_eq!(a.tunnel_selected, 1);
    assert_eq!(a.selected_tunnel().unwrap().pid, 2);
    a.poll_bg(BgMessage::TunnelsLoaded(vec![]), &down());
    assert_eq!(a.tunnel_selected, 0);
    assert!(a.selected_tunnel().is_none());
}

#[test]
fn filter_looks_at_name_id_and_type_in_any_case() {
    let mut a = app();
    a.instances = vec![
        instance("i-0abc", "Web-1", "t3.micro"),
        instance("i-0def", "db", "m6i.large"),
        instance("i-0WEB", "cache", "g4dn.xlarge"),
    ];
    let ids = |a: &App| a.filtered_instances().iter().map(|i| i.id.clone()).collect::<Vec<_>>();
    assert_eq!(ids(&a).len(), 3);
    a.instance_filter = "WEB".to_string();
    assert_eq!(ids(&a), vec!["i-0abc".to_string(), "i-0WEB".to_string()]);
    a.instance_selected = 1;
    assert_eq!(a.selected_instance().unwrap().id, "i-0WEB");
    a.instance_selected = 2;
    assert!(a.selected_instance().is_none());
    a.instance_filter = "M6I".to_string();
    assert_eq!(ids(&a), vec!["i-0def".to_string()]);
    a.instance_filter = "nothing".to_string();
    assert!(ids(&a).is_empty());
}

#[test]
fn tunnels_are_detected_again_every_75_ticks() {
    assert_eq!(TUNNEL_REFRESH_TICKS, 75);
    let mut a = app();
    for tick in 1..=74u32 {
        assert!(a.tick_spinner().is_none());
        assert_eq!(a.tunnel_refresh_ticks, tick);
    }
    assert!(matches!(a.tick_spinner(), Some(Request::LoadTunnels)));
    assert_eq!(a.tunnel_refresh_ticks, 0);
    assert_eq!(a.spinner_tick, 75);
    a.spinner_tick = 255;
    a.tick_spinner();
    assert_eq!(a.spinner_tick, 0);
}

#[test]
fn unconfirmed_stop_does_nothing() {
    let mut a = app();
    a.tunnels = vec![tunnel(1, 1)];
    assert!(handle_confirm(&mut a, ConfirmTag::StopTunnel(0), false).is_empty());
    assert!(handle_confirm(&mut a, ConfirmTag::StopAllTunnels, false).is_empty());
    assert!(handle_confirm(&mut a, ConfirmTag::StopInstance, true).is_empty());
    assert!(handle_confirm(&mut a, ConfirmTag::StopTunnel(9), true).is_empty());
    assert_eq!(a.tunnels.len(), 1);
    assert!(a.status_msg.is_none());
}

#[test]
fn confirmed_stop_terminates_and_removes_the_tunnel() {
    let mut a = app();
    a.tunnels = vec![tunnel(1, 1), tunnel(2, 2), tunnel(3, 3)];
    a.tunnel_selected = 2;
    let actions = handle_confirm(&mut a, ConfirmTag::StopTunnel(1), true);
    assert_eq!(actions.len(), 1);
    assert!(matches!(actions[0], TunnelAction::Kill { pid: 2 }));
    assert_eq!(a.tunnels.iter().map(|t| t.pid).collect::<Vec<_>>(), vec![1, 3]);
    assert_eq!(a.tunnel_selected, 1);
    assert_eq!(a.status_msg.as_deref(), Some("Stopped tunnel PID 2"));
}

#[test]
fn confirmed_stop_of_all_empties_the_list() {
    let mut a = app();
    a.tunnels = vec![tunnel(1, 1), tunnel(2, 2)];
    a.tunnel_selected = 1;
    let actions = handle_confirm(&mut a, ConfirmTag::StopAllTunnels, true);
    assert_eq!(actions.len(), 3);
    assert!(matches!(actions[0], TunnelAction::Kill { pid: 1 }));
    assert!(matches!(actions[1], TunnelAction::Kill { pid: 2 }));
    assert!(matches!(&actions[2], TunnelAction::KillByName { name } if name == "session-manager-plugin"));
    assert!(a.tunnels.is_empty());
    assert_eq!(a.tunnel_selected, 0);
    assert_eq!(a.status_msg.as_deref(), Some("All tunnels stopped"));
}
