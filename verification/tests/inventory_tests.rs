use awsx2::error::AppError;
use awsx2::inventory::{find_bastions, find_instance_by_name, list_instances, raw_to_instance, status_for};
use awsx2::models::{
    Instance, InstanceState, RawInstance, RawInstanceState, SecurityGroup, SsmInstanceInfo,
    SsmStatus, Tag,
};

fn raw(id: &str, state: &str, tags: Option<Vec<(&str, &str)>>) -> RawInstance {
    RawInstance {
        instance_id: id.to_string(),
        instance_type: "m6i.2xlarge".to_string(),
        state: RawInstanceState { name: state.to_string() },
        private_ip: Some("10.0.0.1".to_string()),
        public_ip: None,
        tags: tags.map(|ts| {
            ts.into_iter().map(|(k, v)| Tag { key: k.to_string(), value: v.to_string() }).collect()
        }),
        security_groups: Some(vec![
            SecurityGroup { group_id: "sg-1".to_string(), group_name: "one".to_string() },
            SecurityGroup { group_id: "sg-2".to_string(), group_name: "two".to_string() },
        ]),
    }
}

fn report(id: &str, ping: &str) -> SsmInstanceInfo {
    SsmInstanceInfo { instance_id: id.to_string(), ping_status: ping.to_string() }
}

fn named(id: &str, name: &str) -> Instance {
    Instance {
        id: id.to_string(),
        name: name.to_string(),
        instance_type: "t3.micro".to_string(),
        state: InstanceState::Running,
        private_ip: None,
        public_ip: None,
        ssm_status: SsmStatus::Online,
        tunnel: None,
        security_groups: vec![],
        security_group_ids: vec![],
    }
}

#[test]
fn instance_state_names_round_trip() {
    for name in ["running", "stopped", "pending", "stopping", "terminated", ""] {
        assert_eq!(InstanceState::from_str(name).as_str(), name);
    }
    assert!(matches!(InstanceState::from_str("running"), InstanceState::Running));
    assert!(matches!(InstanceState::from_str("stopped"), InstanceState::Stopped));
    assert!(matches!(InstanceState::from_str("pending"), InstanceState::Pending));
    assert!(matches!(InstanceState::from_str("stopping"), InstanceState::Stopping));
    assert!(matches!(InstanceState::from_str("Running"), InstanceState::Other(_)));
    assert!(InstanceState::from_str("running").is_running());
    assert!(!InstanceState::from_str("stopping").is_running());
}

#[test]
fn agent_status_labels() {
    assert_eq!(SsmStatus::Online.as_str(), "Online");
    assert_eq!(SsmStatus::Offline.as_str(), "Offline");
    assert_eq!(SsmStatus::Unknown.as_str(), "-");
}

#[test]
fn raw_description_becomes_an_instance() {
    let reports = vec![report("i-1", "Offline"), report("i-2", "Online"), report("i-1", "Online")];
    let r = raw("i-1", "running", Some(vec![("env", "prod"), ("Name", "web-1"), ("Name", "later")]));
    let inst = raw_to_instance(&r, &reports);
    assert_eq!(inst.id, "i-1");
    assert_eq!(inst.name, "web-1");
    assert_eq!(inst.instance_type, "m6i.2xlarge");
    assert!(matches!(inst.state, InstanceState::Running));
    assert_eq!(inst.private_ip.as_deref(), Some("10.0.0.1"));
    assert_eq!(inst.public_ip, None);
    // the last report for an instance counts
    assert_eq!(inst.ssm_status, SsmStatus::Online);
    assert!(inst.tunnel.is_none());
    assert_eq!(inst.security_group_ids, vec!["sg-1".to_string(), "sg-2".to_string()]);
    assert_eq!(inst.security_groups, vec!["one".to_string(), "two".to_string()]);
}

#[test]
fn instance_without_tags_groups_or_report() {
    let mut r = raw("i-9", "shutting-down", None);
    r.security_groups = None;
    let inst = raw_to_instance(&r, &[]);
    assert_eq!(inst.name, "");
    assert!(matches!(&inst.state, InstanceState::Other(s) if s == "shutting-down"));
    assert_eq!(inst.ssm_status, SsmStatus::Unknown);
    assert!(inst.security_group_ids.is_empty());
    assert!(inst.security_groups.is_empty());
    let untagged = raw_to_instance(&raw("i-9", "stopped", Some(vec![("env", "x")])), &[]);
    assert_eq!(untagged.name, "");
}

#[test]
fn agent_status_follows_the_last_report() {
    let reports = vec![report("i-1", "Online"), report("i-1", "Offline"), report("i-2", "ConnectionLost")];
    assert_eq!(status_for(&reports, "i-1"), SsmStatus::Offline);
    assert_eq!(status_for(&reports, "i-2"), SsmStatus::Unknown);
    assert_eq!(status_for(&reports, "i-3"), SsmStatus::Unknown);
}

#[test]
fn reservations_are_flattened_in_order() {
    let reservations = vec![
        vec![raw("i-1", "running", None), raw("i-2", "stopped", None)],
        vec![],
        vec![raw("i-3", "pending", None)],
    ];
    let found = list_instances(&reservations, &[report("i-3", "Online")]);
    let ids: Vec<&str> = found.iter().map(|i| i.id.as_str()).collect();
    assert_eq!(ids, vec!["i-1", "i-2", "i-3"]);
    assert_eq!(found[2].ssm_status, SsmStatus::Online);
    assert!(list_instances(&[], &[]).is_empty());
}

#[test]
fn instance_is_found_by_part_of_its_name_in_any_case() {
    let instances = vec![named("i-1", "Web-Server"), named("i-2", "database"), named("i-3", "bastion")];
    assert_eq!(find_instance_by_name("web", &instances).unwrap().id, "i-1");
    assert_eq!(find_instance_by_name("BASE", &instances).unwrap().id, "i-2");
    assert_eq!(find_instance_by_name("bastion", &instances).unwrap().id, "i-3");
}

#[test]
fn missing_instance_is_reported_with_the_pattern() {
    let instances = vec![named("i-1", "web")];
    match find_instance_by_name("db", &instances) {
        Err(AppError::NoInstance(p)) => assert_eq!(p, "db"),
        other => panic!("unexpected {:?}", other.map(|i| i.id.clone())),
    }
    assert!(matches!(find_instance_by_name("x", &[]), Err(AppError::NoInstance(_))));
}

#[test]
fn ambiguous_pattern_is_reported_with_the_count() {
    let instances = vec![named("i-1", "web-1"), named("i-2", "db"), named("i-3", "WEB-2"), named("i-4", "web-3")];
    match find_instance_by_name("web", &instances) {
        Err(AppError::MultipleInstances { pattern, matches }) => {
            assert_eq!(pattern, "web");
            assert_eq!(matches, 3);
        }
        other => panic!("unexpected {:?}", other.map(|i| i.id.clone())),
    }
    // the empty pattern is part of every name
    assert!(matches!(
        find_instance_by_name("", &instances),
        Err(AppError::MultipleInstances { matches: 4, .. })
    ));
}

#[test]
fn bastions_are_running_instances_named_so() {
    let mut stopped = named("i-2", "bastion-stopped");
    stopped.state = InstanceState::Stopped;
    let mut offline = named("i-3", "My-Bastion");
    offline.ssm_status = SsmStatus::Offline;
    let instances = vec![named("i-1", "web"), stopped, offline, named("i-4", "bastion-4")];
    let found = find_bastions(&instances);
    assert_eq!(found.len(), 2);
    assert_eq!(found[0].id, "i-3");
    assert_eq!(found[0].name, "My-Bastion");
    assert!(!found[0].ssm_online);
    assert_eq!(found[1].id, "i-4");
    assert!(found[1].ssm_online);
    assert!(find_bastions(&[]).is_empty());
}
