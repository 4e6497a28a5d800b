use awsx2::error::AppError;
use awsx2::models::{
    Address, Instance, InstanceState, Inventory, LoadBalancer, LoadBalancerTarget,
    SecurityGroupRule, SsmStatus, TargetGroup, TunnelTarget,
};
use awsx2::resolver::{
    find_alb_for_hostname, find_balancer_path, find_direct_match, find_ssm_hop_by_sgs,
    get_alb_healthy_targets, get_allowed_source_sgs, needs_external_lookup, port_for_scheme,
    resolve, resolve_dns_to_target, resolve_via_bastion, resolve_via_load_balancer,
    strip_url_to_host,
};

fn instance(id: &str, name: &str, private_ip: Option<&str>, groups: &[&str]) -> Instance {
    Instance {
        id: id.to_string(),
        name: name.to_string(),
        instance_type: "t3.micro".to_string(),
        state: InstanceState::Running,
        private_ip: private_ip.map(|s| s.to_string()),
        public_ip: None,
        ssm_status: SsmStatus::Online,
        tunnel: None,
        security_groups: groups.iter().map(|g| format!("name-{}", g)).collect(),
        security_group_ids: groups.iter().map(|g| g.to_string()).collect(),
    }
}

fn address(text: &str) -> Address {
    Address { text: text.to_string(), loopback: text.starts_with("127.") || text == "::1" }
}

fn rule(protocol: &str, from: u16, to: u16, sources: &[&str]) -> SecurityGroupRule {
    SecurityGroupRule {
        protocol: protocol.to_string(),
        from_port: from,
        to_port: to,
        source_groups: sources.iter().map(|s| s.to_string()).collect(),
    }
}

fn target(health: &str, id: &str, port: u16, rules: Vec<SecurityGroupRule>) -> LoadBalancerTarget {
    LoadBalancerTarget {
        health: health.to_string(),
        id: id.to_string(),
        port,
        security_group_ids: vec!["sg-target".to_string()],
        rules,
    }
}

fn balancer(addresses: &[&str], groups: Vec<Vec<LoadBalancerTarget>>) -> LoadBalancer {
    LoadBalancer {
        arn: Some("arn:lb/one".to_string()),
        dns_name: "lb.example.test".to_string(),
        addresses: addresses.iter().map(|a| a.to_string()).collect(),
        target_groups: groups
            .into_iter()
            .enumerate()
            .map(|(i, targets)| TargetGroup { arn: format!("arn:tg/{}", i), port: 80, targets })
            .collect(),
    }
}

fn expect_relay(path: &TunnelTarget) -> (String, String, String, u16) {
    match path {
        TunnelTarget::RemoteViaBastion { bastion_id, bastion_name, target_host, target_port } => {
            (bastion_id.clone(), bastion_name.clone(), target_host.clone(), *target_port)
        }
        TunnelTarget::Ec2 { .. } => panic!("expected a relay path"),
    }
}

#[test]
fn strips_scheme_path_and_port() {
    assert_eq!(
        strip_url_to_host("https://app.internal.example.test:8443/x/y"),
        "app.internal.example.test"
    );
    assert_eq!(strip_url_to_host("http://h/"), "h");
    assert_eq!(strip_url_to_host("h"), "h");
    assert_eq!(strip_url_to_host(""), "");
    assert_eq!(strip_url_to_host("https://https://a"), "a");
    assert_eq!(strip_url_to_host("https://http://a:1/b:2"), "a");
    assert_eq!(strip_url_to_host("http://https://a"), "https");
    assert_eq!(strip_url_to_host("host:22"), "host");
    assert_eq!(strip_url_to_host("/path"), "");
    assert_eq!(strip_url_to_host("h\u{e9}te.example/x"), "h\u{e9}te.example");
}

#[test]
fn scheme_decides_the_port() {
    assert_eq!(port_for_scheme("https://a"), 443);
    assert_eq!(port_for_scheme("http://a"), 80);
    assert_eq!(port_for_scheme("a"), 80);
    assert_eq!(port_for_scheme("https:/a"), 80);
    assert_eq!(port_for_scheme(""), 80);
}

#[test]
fn loopback_answers_are_replaced_by_external_ones() {
    let local = vec![address("127.0.0.1")];
    let external = vec![address("10.1.2.3"), address("10.1.2.4")];
    assert!(needs_external_lookup(&local));
    let r = resolve(local, external);
    assert_eq!(r.len(), 2);
    assert_eq!(r[0].text, "10.1.2.3");
}

#[test]
fn loopback_answers_stay_when_external_resolver_knows_nothing() {
    let r = resolve(vec![address("127.0.0.1")], vec![]);
    assert_eq!(r.len(), 1);
    assert_eq!(r[0].text, "127.0.0.1");
}

#[test]
fn real_local_answers_are_kept() {
    let local = vec![address("127.0.0.1"), address("10.0.0.9")];
    assert!(!needs_external_lookup(&local));
    let r = resolve(local, vec![address("10.1.2.3")]);
    assert_eq!(r.len(), 2);
    assert_eq!(r[1].text, "10.0.0.9");
}

#[test]
fn no_local_answer_asks_the_external_resolver() {
    assert!(needs_external_lookup(&[]));
    let r = resolve(vec![], vec![address("10.1.2.3")]);
    assert_eq!(r.len(), 1);
    let r = resolve(vec![], vec![]);
    assert!(r.is_empty());
}

#[test]
fn direct_match_takes_first_owner_of_first_owned_address() {
    let instances = vec![
        instance("i-a", "a", Some("10.0.0.1"), &[]),
        instance("i-b", "b", Some("10.0.0.2"), &[]),
        instance("i-c", "c", Some("10.0.0.2"), &[]),
    ];
    let addrs = vec![address("10.9.9.9"), address("10.0.0.2"), address("10.0.0.1")];
    let found = find_direct_match(&addrs, &instances).unwrap();
    assert_eq!(found.id, "i-b");
    assert!(find_direct_match(&[address("10.9.9.9")], &instances).is_none());
    assert!(find_direct_match(&[], &instances).is_none());
}

#[test]
fn direct_match_accepts_the_public_address() {
    let mut inst = instance("i-a", "a", None, &[]);
    inst.public_ip = Some("54.1.1.1".to_string());
    let instances = vec![inst];
    let found = find_direct_match(&[address("54.1.1.1")], &instances).unwrap();
    assert_eq!(found.id, "i-a");
}

#[test]
fn direct_instance_wins_whatever_balancers_and_bastions_say() {
    let relay = instance("i-relay", "bastion-1", Some("10.0.0.7"), &["sg-relay"]);
    let app = instance("i-app", "app", Some("10.0.0.5"), &[]);
    let lb = balancer(
        &["10.0.0.5"],
        vec![vec![target("healthy", "10.0.1.1", 8080, vec![rule("tcp", 8080, 8080, &["sg-relay"])])]],
    );
    let inventory = Inventory { instances: vec![relay, app], load_balancers: vec![lb] };
    let r = resolve_dns_to_target("https://app.example.test", None, &[address("10.0.0.5")], &inventory);
    match r {
        Ok(TunnelTarget::Ec2 { instance_id, name }) => {
            assert_eq!(instance_id, "i-app");
            assert_eq!(name, "app");
        }
        other => panic!("unexpected {:?}", other),
    }
}

#[test]
fn hop_selector_returns_the_sole_online_member() {
    // rules permit port 8080 from sg-relay only
    let rules = vec![rule("tcp", 8080, 8080, &["sg-relay"]), rule("tcp", 22, 22, &["sg-admin"])];
    let allowed = get_allowed_source_sgs(&rules, 8080);
    assert_eq!(allowed, vec!["sg-relay".to_string()]);
    let mut offline = instance("i-off", "off", None, &["sg-relay"]);
    offline.ssm_status = SsmStatus::Offline;
    let mut stopped = instance("i-stopped", "stopped", None, &["sg-relay"]);
    stopped.state = InstanceState::Stopped;
    let instances = vec![
        instance("i-other", "other", None, &["sg-admin"]),
        offline,
        stopped,
        instance("i-relay", "relay", None, &["sg-x", "sg-relay"]),
        instance("i-later", "later", None, &["sg-relay"]),
    ];
    let hop = find_ssm_hop_by_sgs(&allowed, &instances).unwrap();
    assert_eq!(hop.id, "i-relay");
}

#[test]
fn hop_selector_returns_nothing_when_none_qualifies() {
    let instances = vec![instance("i-a", "a", None, &["sg-a"])];
    assert!(find_ssm_hop_by_sgs(&["sg-b".to_string()], &instances).is_none());
    assert!(find_ssm_hop_by_sgs(&[], &instances).is_none());
    assert!(find_ssm_hop_by_sgs(&["sg-a".to_string()], &[]).is_none());
    let mut unknown = instance("i-u", "u", None, &["sg-a"]);
    unknown.ssm_status = SsmStatus::Unknown;
    assert!(find_ssm_hop_by_sgs(&["sg-a".to_string()], &[unknown]).is_none());
}

#[test]
fn allowed_sources_follow_protocol_and_range() {
    let rules = vec![
        rule("tcp", 100, 200, &["sg-range"]),
        rule("-1", 0, 0, &["sg-any", "sg-range"]),
        rule("udp", 8080, 8080, &["sg-udp"]),
        rule("tcp", 9000, 9001, &["sg-far"]),
        rule("tcp", 151, 150, &["sg-empty-range"]),
    ];
    assert_eq!(get_allowed_source_sgs(&rules, 150), strings(&["sg-range", "sg-any"]));
    assert_eq!(get_allowed_source_sgs(&rules, 100), strings(&["sg-range", "sg-any"]));
    assert_eq!(get_allowed_source_sgs(&rules, 200), strings(&["sg-range", "sg-any"]));
    assert_eq!(get_allowed_source_sgs(&rules, 201), strings(&["sg-any", "sg-range"]));
    assert_eq!(get_allowed_source_sgs(&rules, 8080), strings(&["sg-any", "sg-range", "sg-udp"]));
    assert!(get_allowed_source_sgs(&[], 80).is_empty());
}

fn strings(items: &[&str]) -> Vec<String> {
    items.iter().map(|s| s.to_string()).collect()
}

#[test]
fn healthy_targets_keep_enumeration_order_and_port_filter() {
    let groups = vec![
        TargetGroup {
            arn: "tg-1".to_string(),
            port: 80,
            targets: vec![
                target("unhealthy", "10.0.1.1", 8080, vec![]),
                target("healthy", "10.0.1.2", 8080, vec![]),
                target("healthy", "10.0.1.3", 9090, vec![]),
            ],
        },
        TargetGroup { arn: "tg-2".to_string(), port: 80, targets: vec![] },
        TargetGroup {
            arn: "tg-3".to_string(),
            port: 80,
            targets: vec![target("healthy", "i-0abc", 8080, vec![]), target("draining", "x", 8080, vec![])],
        },
    ];
    let all = get_alb_healthy_targets(&groups, None);
    assert_eq!(
        all,
        vec![
            ("10.0.1.2".to_string(), 8080),
            ("10.0.1.3".to_string(), 9090),
            ("i-0abc".to_string(), 8080)
        ]
    );
    let on_8080 = get_alb_healthy_targets(&groups, Some(8080));
    assert_eq!(on_8080, vec![("10.0.1.2".to_string(), 8080), ("i-0abc".to_string(), 8080)]);
    assert!(get_alb_healthy_targets(&groups, Some(1)).is_empty());
    assert!(get_alb_healthy_targets(&[], None).is_empty());
}

#[test]
fn balancer_is_found_by_intersecting_addresses() {
    let mut unnamed = balancer(&["10.0.0.5"], vec![]);
    unnamed.dns_name = String::new();
    unnamed.arn = Some("arn:lb/unnamed".to_string());
    let mut anonymous = balancer(&["10.0.0.5"], vec![]);
    anonymous.arn = None;
    let mut other = balancer(&["10.0.0.6"], vec![]);
    other.arn = Some("arn:lb/other".to_string());
    let mut wanted = balancer(&["10.0.0.4", "10.0.0.5"], vec![]);
    wanted.arn = Some("arn:lb/wanted".to_string());
    let lbs = vec![unnamed, anonymous, other, wanted];
    let resolved = vec![address("127.0.0.1"), address("10.0.0.5")];
    assert_eq!(find_alb_for_hostname(&resolved, &lbs), Some("arn:lb/wanted".to_string()));
    assert_eq!(find_alb_for_hostname(&[address("10.0.0.9")], &lbs), None);
    assert_eq!(find_alb_for_hostname(&[], &lbs), None);
}

#[test]
fn loopback_addresses_never_match_a_balancer() {
    let lbs = vec![balancer(&["127.0.0.1"], vec![])];
    assert_eq!(find_alb_for_hostname(&[address("127.0.0.1")], &lbs), None);
}

#[test]
fn first_reachable_target_wins_over_later_ones() {
    let relay = instance("i-relay", "relay", None, &["sg-relay"]);
    let second = instance("i-second", "second", None, &["sg-second"]);
    let lb = balancer(
        &["10.0.0.5"],
        vec![
            vec![
                target("unhealthy", "10.0.1.1", 8080, vec![rule("-1", 0, 0, &["sg-relay"])]),
                target("healthy", "10.0.1.2", 8080, vec![rule("tcp", 22, 22, &["sg-relay"])]),
            ],
            vec![
                target("healthy", "10.0.1.3", 8081, vec![rule("tcp", 8081, 8081, &["sg-second"])]),
                target("healthy", "10.0.1.4", 8080, vec![rule("tcp", 8080, 8080, &["sg-relay"])]),
            ],
        ],
    );
    let inventory = Inventory { instances: vec![relay, second], load_balancers: vec![lb] };
    let resolved = vec![address("10.0.0.5")];
    let r = resolve_dns_to_target("http://svc.example.test", None, &resolved, &inventory).unwrap();
    assert_eq!(
        expect_relay(&r),
        ("i-second".to_string(), "second".to_string(), "10.0.1.3".to_string(), 8081)
    );
    // narrowed to one port, the first target on that port wins
    let r = resolve_dns_to_target("http://svc.example.test", Some(8080), &resolved, &inventory).unwrap();
    assert_eq!(
        expect_relay(&r),
        ("i-relay".to_string(), "relay".to_string(), "10.0.1.4".to_string(), 8080)
    );
    let path = find_balancer_path(None, &resolved, &inventory).unwrap();
    assert_eq!(expect_relay(&path).2, "10.0.1.3");
}

#[test]
fn target_without_known_groups_is_passed_over() {
    let relay = instance("i-relay", "relay", None, &["sg-relay"]);
    let mut blind = target("healthy", "10.0.1.1", 80, vec![rule("-1", 0, 0, &["sg-relay"])]);
    blind.security_group_ids = vec![];
    let seen = target("healthy", "10.0.1.2", 80, vec![rule("-1", 0, 0, &["sg-relay"])]);
    let lb = balancer(&["10.0.0.5"], vec![vec![blind, seen]]);
    let r = resolve_via_load_balancer(&lb, None, &[relay]).unwrap();
    assert_eq!(expect_relay(&r).2, "10.0.1.2");
}

#[test]
fn balancer_without_reachable_target_reports_no_hop() {
    let lb = balancer(&["10.0.0.5"], vec![vec![target("healthy", "10.0.1.1", 80, vec![])]]);
    match resolve_via_load_balancer(&lb, None, &[]) {
        Err(AppError::NoHopAvailable { host }) => assert_eq!(host, "lb.example.test"),
        other => panic!("unexpected {:?}", other),
    }
}

#[test]
fn internal_host_goes_through_the_online_bastion() {
    let inventory = Inventory {
        instances: vec![instance("i-b1", "bastion-1", Some("10.0.0.7"), &[])],
        load_balancers: vec![],
    };
    let r = resolve_dns_to_target("http://app.internal.example.test", None, &[], &inventory).unwrap();
    assert_eq!(
        expect_relay(&r),
        (
            "i-b1".to_string(),
            "bastion-1".to_string(),
            "app.internal.example.test".to_string(),
            80
        )
    );
    let r = resolve_dns_to_target("https://app.internal.example.test", None, &[], &inventory).unwrap();
    assert_eq!(
        expect_relay(&r),
        (
            "i-b1".to_string(),
            "bastion-1".to_string(),
            "app.internal.example.test".to_string(),
            443
        )
    );
}

#[test]
fn bastion_is_recognised_whatever_the_case_of_its_name() {
    let mut offline = instance("i-b0", "bastion-0", None, &[]);
    offline.ssm_status = SsmStatus::Offline;
    let mut stopped = instance("i-b1", "bastion-1", None, &[]);
    stopped.state = InstanceState::Other("shutting-down".to_string());
    let instances =
        vec![instance("i-web", "web", None, &[]), offline, stopped, instance("i-b2", "Prod-BASTION", None, &[])];
    let r = resolve_via_bastion("https://x.example.test/p", &[address("10.3.3.3")], &instances).unwrap();
    assert_eq!(
        expect_relay(&r),
        ("i-b2".to_string(), "Prod-BASTION".to_string(), "10.3.3.3".to_string(), 443)
    );
}

#[test]
fn resolution_without_online_bastion_finds_no_path() {
    let mut offline = instance("i-b0", "bastion-0", None, &[]);
    offline.ssm_status = SsmStatus::Offline;
    let inventory =
        Inventory { instances: vec![instance("i-web", "web", None, &[]), offline], load_balancers: vec![] };
    match resolve_dns_to_target("http://app.internal.example.test:8080/x", None, &[], &inventory) {
        Err(AppError::NoPathFound { host }) => assert_eq!(host, "app.internal.example.test"),
        other => panic!("unexpected {:?}", other),
    }
}

#[test]
fn unreachable_balancer_falls_back_to_the_bastion() {
    let lb = balancer(&["10.0.0.5"], vec![vec![target("healthy", "10.0.1.1", 80, vec![])]]);
    let inventory = Inventory {
        instances: vec![instance("i-b1", "bastion-1", None, &[])],
        load_balancers: vec![lb],
    };
    let resolved = vec![address("10.0.0.5")];
    assert!(find_balancer_path(None, &resolved, &inventory).is_none());
    let r = resolve_dns_to_target("http://svc.example.test", None, &resolved, &inventory).unwrap();
    assert_eq!(
        expect_relay(&r),
        ("i-b1".to_string(), "bastion-1".to_string(), "10.0.0.5".to_string(), 80)
    );
}
