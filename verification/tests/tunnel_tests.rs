use awsx2::error::AppError;
use awsx2::models::{Address, Instance, InstanceState, Inventory, SsmStatus, TunnelProcess};
use awsx2::tunnel::{
    start_dns_tunnel, start_remote_tunnel_via_instance, start_remote_tunnel_via_pattern,
    start_tunnel_by_pattern, start_url_tunnel_via_any_bastion, stop_all_tunnels, stop_tunnel,
    try_alb_tunnel, Phase, Supervisor, TunnelAction, TunnelEvent, TunnelPlan, TunnelState,
    FALLBACK_PAUSE_MS, FALLBACK_PORT_TIMEOUT_MS, POLL_INTERVAL_MS, PORT_TIMEOUT_MS,
    REMOTE_PROBE_WINDOW_MS,
};

fn named(id: &str, name: &str) -> Instance {
    Instance {
        id: id.to_string(),
        name: name.to_string(),
        instance_type: "t3.micro".to_string(),
        state: InstanceState::Running,
        private_ip: None,
        public_ip: None,
        ssm_status: SsmStatus::Online,
        tunnel: None,
        security_groups: vec![],
        security_group_ids: vec![],
    }
}

fn relay_supervisor() -> Supervisor {
    start_remote_tunnel_via_instance("i-relay", "relay", "db.internal", 15432, 5432, Some("prod"))
}

fn spawned(s: &mut Supervisor, pid: u32) {
    assert!(matches!(s.begin(), TunnelAction::TestPort { port: 15432 }));
    assert!(matches!(s.step(TunnelEvent::PortTested { open: false }), TunnelAction::Spawn { .. }));
    assert!(matches!(s.step(TunnelEvent::Spawned { pid }), TunnelAction::TestPort { port: 15432 }));
}

#[test]
fn timing_constants() {
    assert_eq!(PORT_TIMEOUT_MS, 20_000);
    assert_eq!(FALLBACK_PORT_TIMEOUT_MS, 10_000);
    assert_eq!(POLL_INTERVAL_MS, 500);
    assert_eq!(FALLBACK_PAUSE_MS, 2_000);
    assert_eq!(REMOTE_PROBE_WINDOW_MS, 5_000);
}

#[test]
fn busy_local_port_is_refused_without_launching_anything() {
    let mut s = relay_supervisor();
    assert_eq!(s.state(), TunnelState::Starting);
    assert!(matches!(s.begin(), TunnelAction::TestPort { port: 15432 }));
    match s.step(TunnelEvent::PortTested { open: true }) {
        TunnelAction::Failed(AppError::PortAlreadyInUse(15432)) => {}
        other => panic!("unexpected {:?}", other),
    }
    assert_eq!(s.state(), TunnelState::Failed);
    // nothing follows a failure
    assert!(matches!(s.step(TunnelEvent::PortTested { open: false }), TunnelAction::Nothing));
    assert!(matches!(s.step(TunnelEvent::Spawned { pid: 1 }), TunnelAction::Nothing));
    assert_eq!(s.state(), TunnelState::Failed);
}

#[test]
fn tunnel_becomes_active_once_the_remote_end_answers() {
    let mut s = relay_supervisor();
    assert!(matches!(s.begin(), TunnelAction::TestPort { port: 15432 }));
    match s.step(TunnelEvent::PortTested { open: false }) {
        TunnelAction::Spawn { command } => {
            assert_eq!(
                command,
                vec![
                    "--profile",
                    "prod",
                    "ssm",
                    "start-session",
                    "--target",
                    "i-relay",
                    "--document-name",
                    "AWS-StartPortForwardingSessionToRemoteHost",
                    "--parameters",
                    r#"{"host":["db.internal"],"portNumber":["5432"],"localPortNumber":["15432"]}"#,
                ]
            );
        }
        other => panic!("unexpected {:?}", other),
    }
    assert_eq!(s.state(), TunnelState::Starting);
    assert!(matches!(s.step(TunnelEvent::Spawned { pid: 4242 }), TunnelAction::TestPort { port: 15432 }));
    assert_eq!(s.state(), TunnelState::Probing);
    assert!(matches!(
        s.step(TunnelEvent::PortTested { open: false }),
        TunnelAction::Sleep { millis: 500 }
    ));
    assert!(matches!(
        s.step(TunnelEvent::Slept { elapsed_ms: 500 }),
        TunnelAction::TestPort { port: 15432 }
    ));
    assert!(matches!(
        s.step(TunnelEvent::PortTested { open: true }),
        TunnelAction::ProbeRemote { port: 15432 }
    ));
    match s.step(TunnelEvent::RemoteProbed { latency_ms: Some(37) }) {
        TunnelAction::Established(tp) => {
            assert_eq!(tp.pid, 4242);
            assert_eq!(tp.local_port, 15432);
            assert_eq!(tp.remote_port, 5432);
            assert_eq!(tp.remote_host.as_deref(), Some("db.internal"));
            assert_eq!(tp.instance_id, "i-relay");
            assert_eq!(tp.instance_name, "relay");
            assert!(tp.port_open);
            assert_eq!(tp.latency_ms, Some(37));
        }
        other => panic!("unexpected {:?}", other),
    }
    assert_eq!(s.state(), TunnelState::Active);
    assert!(matches!(s.step(TunnelEvent::Killed), TunnelAction::Nothing));
    assert!(matches!(s.step(TunnelEvent::StopRequested), TunnelAction::Kill { pid: 4242 }));
    assert_eq!(s.state(), TunnelState::Stopped);
    assert!(matches!(s.step(TunnelEvent::StopRequested), TunnelAction::Nothing));
}

#[test]
fn silent_remote_end_has_the_agent_terminated() {
    let mut s = relay_supervisor();
    spawned(&mut s, 77);
    assert!(matches!(
        s.step(TunnelEvent::PortTested { open: true }),
        TunnelAction::ProbeRemote { port: 15432 }
    ));
    assert!(matches!(
        s.step(TunnelEvent::RemoteProbed { latency_ms: None }),
        TunnelAction::Kill { pid: 77 }
    ));
    assert_eq!(s.state(), TunnelState::Probing);
    match s.step(TunnelEvent::Killed) {
        TunnelAction::Failed(AppError::RemoteUnreachable(15432)) => {}
        other => panic!("unexpected {:?}", other),
    }
    assert_eq!(s.state(), TunnelState::Failed);
}

#[test]
fn port_that_never_opens_has_the_agent_terminated() {
    let mut s = relay_supervisor();
    spawned(&mut s, 78);
    let mut elapsed = 0;
    loop {
        assert!(matches!(
            s.step(TunnelEvent::PortTested { open: false }),
            TunnelAction::Sleep { millis: 500 }
        ));
        elapsed += 500;
        match s.step(TunnelEvent::Slept { elapsed_ms: elapsed }) {
            TunnelAction::TestPort { port: 15432 } => assert!(elapsed < 20_000),
            TunnelAction::Kill { pid: 78 } => {
                assert_eq!(elapsed, 20_000);
                break;
            }
            other => panic!("unexpected {:?}", other),
        }
    }
    match s.step(TunnelEvent::Killed) {
        TunnelAction::Failed(AppError::PortNeverOpened(15432)) => {}
        other => panic!("unexpected {:?}", other),
    }
}

#[test]
fn agent_that_cannot_be_launched_fails_the_tunnel() {
    let mut s = relay_supervisor();
    assert!(matches!(s.step(TunnelEvent::PortTested { open: false }), TunnelAction::Spawn { .. }));
    match s.step(TunnelEvent::SpawnFailed { message: "aws: not found".to_string() }) {
        TunnelAction::Failed(AppError::Io(m)) => assert_eq!(m, "aws: not found"),
        other => panic!("unexpected {:?}", other),
    }
    assert_eq!(s.state(), TunnelState::Failed);
}

#[test]
fn unexpected_reports_change_nothing() {
    let mut s = relay_supervisor();
    assert!(matches!(s.step(TunnelEvent::Killed), TunnelAction::Nothing));
    assert!(matches!(s.step(TunnelEvent::Spawned { pid: 5 }), TunnelAction::Nothing));
    assert!(matches!(s.step(TunnelEvent::StopRequested), TunnelAction::Nothing));
    assert!(matches!(s.step(TunnelEvent::Slept { elapsed_ms: 99_999 }), TunnelAction::Nothing));
    assert!(matches!(s.step(TunnelEvent::RemoteProbed { latency_ms: Some(1) }), TunnelAction::Nothing));
    assert_eq!(s.phase, Phase::CheckingPort);
    assert_eq!(s.pid, 0);
}

#[test]
fn each_online_bastion_is_tried_in_turn() {
    let mut offline = named("i-b2", "bastion-2");
    offline.ssm_status = SsmStatus::Offline;
    let instances =
        vec![named("i-b1", "bastion-1"), named("i-web", "web"), offline, named("i-b3", "Bastion-3")];
    let mut s =
        start_url_tunnel_via_any_bastion("https://app.internal.example.test/x", 8443, &instances, None)
            .unwrap();
    assert!(s.fallback);
    assert_eq!(s.timeout_ms, 10_000);
    assert_eq!(s.plans.len(), 2);
    assert_eq!(s.plans[0].instance_id, "i-b1");
    assert_eq!(s.plans[1].instance_id, "i-b3");
    assert_eq!(s.plans[1].remote_host.as_deref(), Some("app.internal.example.test"));
    assert_eq!(s.plans[1].remote_port, 443);
    assert_eq!(s.plans[1].local_port, 8443);

    assert!(matches!(s.begin(), TunnelAction::TestPort { port: 8443 }));
    match s.step(TunnelEvent::PortTested { open: false }) {
        TunnelAction::Spawn { command } => assert_eq!(command[3], "i-b1"),
        other => panic!("unexpected {:?}", other),
    }
    assert!(matches!(s.step(TunnelEvent::Spawned { pid: 10 }), TunnelAction::TestPort { .. }));
    assert!(matches!(s.step(TunnelEvent::PortTested { open: false }), TunnelAction::Sleep { millis: 500 }));
    // the time allowed is shorter when several relays are tried
    assert!(matches!(s.step(TunnelEvent::Slept { elapsed_ms: 10_000 }), TunnelAction::Kill { pid: 10 }));
    assert!(matches!(s.step(TunnelEvent::Killed), TunnelAction::Sleep { millis: 2_000 }));
    match s.step(TunnelEvent::Slept { elapsed_ms: 0 }) {
        TunnelAction::Spawn { command } => assert_eq!(command[3], "i-b3"),
        other => panic!("unexpected {:?}", other),
    }
    assert!(matches!(s.step(TunnelEvent::Spawned { pid: 11 }), TunnelAction::TestPort { .. }));
    assert!(matches!(s.step(TunnelEvent::PortTested { open: true }), TunnelAction::ProbeRemote { .. }));
    match s.step(TunnelEvent::RemoteProbed { latency_ms: Some(5) }) {
        TunnelAction::Established(tp) => {
            assert_eq!(tp.pid, 11);
            assert_eq!(tp.instance_id, "i-b3");
            assert_eq!(tp.instance_name, "Bastion-3");
        }
        other => panic!("unexpected {:?}", other),
    }
}

#[test]
fn failure_of_every_bastion_names_how_many_were_tried() {
    let instances = vec![named("i-b1", "bastion-1"), named("i-b2", "bastion-2")];
    let mut s = start_url_tunnel_via_any_bastion("http://h.example.test", 8080, &instances, None).unwrap();
    s.step(TunnelEvent::PortTested { open: false });
    for pid in [1, 2] {
        assert!(matches!(s.step(TunnelEvent::Spawned { pid }), TunnelAction::TestPort { .. }));
        assert!(matches!(s.step(TunnelEvent::PortTested { open: true }), TunnelAction::ProbeRemote { .. }));
        assert!(matches!(
            s.step(TunnelEvent::RemoteProbed { latency_ms: None }),
            TunnelAction::Kill { .. }
        ));
        if pid == 1 {
            assert!(matches!(s.step(TunnelEvent::Killed), TunnelAction::Sleep { millis: 2_000 }));
            assert!(matches!(s.step(TunnelEvent::Slept { elapsed_ms: 0 }), TunnelAction::Spawn { .. }));
        }
    }
    match s.step(TunnelEvent::Killed) {
        TunnelAction::Failed(AppError::AggregateFallbackFailure { attempts, host, port }) => {
            assert_eq!(attempts, 2);
            assert_eq!(host, "h.example.test");
            assert_eq!(port, 80);
        }
        other => panic!("unexpected {:?}", other),
    }
    assert_eq!(s.state(), TunnelState::Failed);
}

#[test]
fn no_online_bastion_means_no_path() {
    let mut offline = named("i-b1", "bastion-1");
    offline.ssm_status = SsmStatus::Unknown;
    match start_url_tunnel_via_any_bastion("http://h.example.test/", 8080, &[offline], None) {
        Err(AppError::NoPathFound { host }) => assert_eq!(host, "h.example.test"),
        other => panic!("unexpected {:?}", other),
    }
}

#[test]
fn tunnel_by_pattern_goes_to_the_instance_itself() {
    let instances = vec![named("i-web", "web-1"), named("i-db", "db-1")];
    let s = start_tunnel_by_pattern("WEB", 18000, 8000, &instances, None).unwrap();
    assert!(!s.fallback);
    assert_eq!(s.timeout_ms, 20_000);
    assert_eq!(s.plans.len(), 1);
    assert_eq!(s.plans[0].instance_id, "i-web");
    assert_eq!(s.plans[0].instance_name, "web-1");
    assert_eq!(s.plans[0].remote_host, None);
    assert_eq!((s.plans[0].local_port, s.plans[0].remote_port), (18000, 8000));
    assert!(s.profile.is_none());
    assert!(matches!(
        start_tunnel_by_pattern("cache", 1, 2, &instances, None),
        Err(AppError::NoInstance(_))
    ));
    assert!(matches!(
        start_tunnel_by_pattern("-1", 1, 2, &instances, None),
        Err(AppError::MultipleInstances { matches: 2, .. })
    ));
}

#[test]
fn remote_tunnel_by_pattern_goes_through_the_named_relay() {
    let instances = vec![named("i-web", "web-1"), named("i-b", "bastion")];
    let s = start_remote_tunnel_via_pattern("bast", "10.0.1.42", 8501, 8502, &instances, Some("p")).unwrap();
    assert_eq!(s.plans[0].instance_id, "i-b");
    assert_eq!(s.plans[0].remote_host.as_deref(), Some("10.0.1.42"));
    assert_eq!((s.plans[0].local_port, s.plans[0].remote_port), (8501, 8502));
    assert_eq!(s.profile.as_deref(), Some("p"));
    assert!(matches!(
        start_remote_tunnel_via_pattern("x", "h", 1, 2, &instances, None),
        Err(AppError::NoInstance(_))
    ));
}

#[test]
fn dns_tunnel_follows_the_resolution_path() {
    let mut app = named("i-app", "app");
    app.private_ip = Some("10.0.0.5".to_string());
    let inventory = Inventory { instances: vec![named("i-b", "bastion"), app], load_balancers: vec![] };
    let resolved = vec![Address { text: "10.0.0.5".to_string(), loopback: false }];
    let s = start_dns_tunnel("https://app.example.test", 9000, 8501, &resolved, &inventory, None).unwrap();
    assert_eq!(s.plans[0].instance_id, "i-app");
    assert_eq!(s.plans[0].remote_host, None);
    assert_eq!((s.plans[0].local_port, s.plans[0].remote_port), (9000, 8501));

    let s = start_dns_tunnel("https://other.example.test", 9000, 8501, &[], &inventory, None).unwrap();
    assert_eq!(s.plans[0].instance_id, "i-b");
    assert_eq!(s.plans[0].remote_host.as_deref(), Some("other.example.test"));
    assert_eq!(s.plans[0].remote_port, 8501);

    let empty = Inventory { instances: vec![], load_balancers: vec![] };
    assert!(matches!(
        start_dns_tunnel("https://other.example.test", 9000, 8501, &[], &empty, None),
        Err(AppError::NoPathFound { .. })
    ));
}

#[test]
fn url_tunnel_without_balancer_tries_the_bastions() {
    let inventory = Inventory { instances: vec![named("i-b", "bastion")], load_balancers: vec![] };
    let s = try_alb_tunnel("http://svc.example.test", 8080, None, &[], &inventory, None).unwrap();
    assert!(s.fallback);
    assert_eq!(s.plans.len(), 1);
    assert_eq!(s.plans[0].remote_port, 80);
}

#[test]
fn supervisor_can_be_made_from_plans() {
    let plan = TunnelPlan {
        instance_id: "i-1".to_string(),
        instance_name: "one".to_string(),
        remote_host: None,
        local_port: 1,
        remote_port: 2,
    };
    let s = Supervisor::new(vec![plan], None, false, 1234);
    assert_eq!(s.phase, Phase::CheckingPort);
    assert_eq!(s.current, 0);
    assert_eq!(s.timeout_ms, 1234);
}

#[test]
fn stopping_terminates_known_agents_and_then_all_by_name() {
    assert!(matches!(stop_tunnel(99), TunnelAction::Kill { pid: 99 }));
    let tunnels: Vec<TunnelProcess> = [5u32, 6]
        .iter()
        .map(|pid| TunnelProcess {
            pid: *pid,
            local_port: 1,
            remote_port: 2,
            remote_host: None,
            instance_id: String::new(),
            instance_name: String::new(),
            port_open: false,
            latency_ms: None,
        })
        .collect();
    let actions = stop_all_tunnels(&tunnels);
    assert_eq!(actions.len(), 3);
    assert!(matches!(actions[0], TunnelAction::Kill { pid: 5 }));
    assert!(matches!(actions[1], TunnelAction::Kill { pid: 6 }));
    assert!(matches!(&actions[2], TunnelAction::KillByName { name } if name == "session-manager-plugin"));
    let only = stop_all_tunnels(&[]);
    assert_eq!(only.len(), 1);
    assert!(matches!(&only[0], TunnelAction::KillByName { .. }));
}
