use awsx2::error::AppError;
use awsx2::json::{low16_of_i64, low16_of_u64, Json};
use awsx2::queries::{
    get_target_sg_ids, network_interface_filter, parse_load_balancers, parse_security_group_rules,
    parse_target_groups, parse_target_health,
};
use awsx2::resolver::get_allowed_source_sgs;

fn doc(text: &str) -> Json {
    Json::parse(text).unwrap()
}

#[test]
fn json_text_is_read_into_a_tree() {
    let d = doc(r#"{"a": [1, -2, "x", null, true, {"b": "c"}], "n": 18446744073709551615, "f": 1.5}"#);
    let items = d.array_member("a").unwrap();
    assert_eq!(items.len(), 6);
    assert_eq!(items[0].as_u64(), Some(1));
    assert_eq!(items[0].as_i64(), Some(1));
    assert_eq!(items[1].as_u64(), None);
    assert_eq!(items[1].as_i64(), Some(-2));
    assert_eq!(items[2].as_str(), Some("x"));
    assert!(matches!(items[3], Json::Null));
    assert!(matches!(items[4], Json::Bool(true)));
    assert_eq!(items[5].text_member("b"), Some("c"));
    assert_eq!(d.get("n").unwrap().as_u64(), Some(u64::MAX));
    assert_eq!(d.get("n").unwrap().as_i64(), None);
    assert_eq!(d.get("f").unwrap().as_u64(), None);
    assert_eq!(d.get("f").unwrap().as_i64(), None);
    assert!(d.get("missing").is_none());
    assert!(d.get("a").unwrap().get("a").is_none());
    assert!(d.get("a").unwrap().as_str().is_none());
    assert!(d.get("n").unwrap().as_array().is_none());
    assert!(d.array_member("n").is_none());
    assert!(d.text_member("a").is_none());
}

#[test]
fn last_of_repeated_members_counts() {
    let d = doc(r#"{"k": "first", "k": "second"}"#);
    assert_eq!(d.text_member("k"), Some("second"));
}

#[test]
fn malformed_json_is_a_json_error() {
    for text in ["", "{", "{'a': 1}", "[1,]", "nul", "{} x"] {
        match Json::parse(text) {
            Err(AppError::Json(message)) => assert!(!message.is_empty()),
            other => panic!("unexpected {:?} for {:?}", other, text),
        }
    }
}

#[test]
fn low_sixteen_bits_of_numbers() {
    assert_eq!(low16_of_u64(0), 0);
    assert_eq!(low16_of_u64(65535), 65535);
    assert_eq!(low16_of_u64(65536), 0);
    assert_eq!(low16_of_u64(70000), 70000u64 as u16);
    assert_eq!(low16_of_u64(u64::MAX), u64::MAX as u16);
    assert_eq!(low16_of_i64(8080), 8080);
    assert_eq!(low16_of_i64(-1), -1i64 as u16);
    assert_eq!(low16_of_i64(-65536), 0);
    assert_eq!(low16_of_i64(-65537), -65537i64 as u16);
    assert_eq!(low16_of_i64(i64::MIN), i64::MIN as u16);
    assert_eq!(low16_of_i64(i64::MAX), i64::MAX as u16);
    for n in [-70000i64, -32768, -2, 1, 65535, 65536, 123456789] {
        assert_eq!(low16_of_i64(n), n as u16);
    }
}

#[test]
fn load_balancers_need_a_public_name() {
    let d = doc(
        r#"{"LoadBalancers": [
            {"DNSName": "a.elb.example.test", "LoadBalancerArn": "arn:a"},
            {"DNSName": "", "LoadBalancerArn": "arn:empty"},
            {"LoadBalancerArn": "arn:unnamed"},
            {"DNSName": 7, "LoadBalancerArn": "arn:number"},
            {"DNSName": "b.elb.example.test"},
            "not an object"
        ]}"#,
    );
    let lbs = parse_load_balancers(&d);
    assert_eq!(lbs.len(), 2);
    assert_eq!(lbs[0].dns_name, "a.elb.example.test");
    assert_eq!(lbs[0].arn.as_deref(), Some("arn:a"));
    assert_eq!(lbs[1].dns_name, "b.elb.example.test");
    assert_eq!(lbs[1].arn, None);
    assert!(lbs[0].addresses.is_empty());
    assert!(lbs[0].target_groups.is_empty());
    assert!(parse_load_balancers(&doc("{}")).is_empty());
    assert!(parse_load_balancers(&doc(r#"{"LoadBalancers": {}}"#)).is_empty());
    assert!(parse_load_balancers(&doc("[]")).is_empty());
}

#[test]
fn target_groups_need_an_identity() {
    let d = doc(
        r#"{"TargetGroups": [
            {"TargetGroupArn": "arn:tg1", "Port": 8080},
            {"Port": 80},
            {"TargetGroupArn": "arn:tg2"},
            {"TargetGroupArn": "arn:tg3", "Port": 65537},
            {"TargetGroupArn": "arn:tg4", "Port": -5}
        ]}"#,
    );
    let groups = parse_target_groups(&d);
    let keys: Vec<(&str, u16)> = groups.iter().map(|g| (g.arn.as_str(), g.port)).collect();
    assert_eq!(keys, vec![("arn:tg1", 8080), ("arn:tg2", 0), ("arn:tg3", 1), ("arn:tg4", 0)]);
    assert!(groups.iter().all(|g| g.targets.is_empty()));
}

#[test]
fn target_health_gives_state_identifier_and_port() {
    let d = doc(
        r#"{"TargetHealthDescriptions": [
            {"Target": {"Id": "10.0.1.1", "Port": 8080}, "TargetHealth": {"State": "healthy"}},
            {"Target": {"Id": "i-0abc"}, "TargetHealth": {"State": "unhealthy"}},
            {"Target": {"Port": 1}, "TargetHealth": {"State": "healthy"}},
            {"TargetHealth": {"State": "healthy"}},
            {"Target": {"Id": "10.0.1.4", "Port": "x"}},
            {"Target": {"Id": "10.0.1.5", "Port": 65536}, "TargetHealth": {}}
        ]}"#,
    );
    let targets = parse_target_health(&d, 9000);
    let keys: Vec<(&str, &str, u16)> =
        targets.iter().map(|t| (t.health.as_str(), t.id.as_str(), t.port)).collect();
    assert_eq!(
        keys,
        vec![
            ("healthy", "10.0.1.1", 8080),
            ("unhealthy", "i-0abc", 9000),
            ("", "10.0.1.4", 9000),
            ("", "10.0.1.5", 0),
        ]
    );
    assert!(targets.iter().all(|t| t.security_group_ids.is_empty() && t.rules.is_empty()));
}

#[test]
fn interface_filter_depends_on_the_kind_of_target() {
    assert_eq!(network_interface_filter("i-0abc"), "Name=attachment.instance-id,Values=i-0abc");
    assert_eq!(
        network_interface_filter("10.0.1.1"),
        "Name=addresses.private-ip-address,Values=10.0.1.1"
    );
    assert_eq!(network_interface_filter("i"), "Name=addresses.private-ip-address,Values=i");
    assert_eq!(network_interface_filter(""), "Name=addresses.private-ip-address,Values=");
}

#[test]
fn interface_groups_are_listed_once_each() {
    let d = doc(
        r#"{"NetworkInterfaces": [
            {"Groups": [{"GroupId": "sg-1"}, {"GroupId": "sg-2"}, {"GroupName": "nameless"}]},
            {"Other": 1},
            {"Groups": [{"GroupId": "sg-2"}, {"GroupId": "sg-3"}, {"GroupId": "sg-1"}]}
        ]}"#,
    );
    assert_eq!(
        get_target_sg_ids(&d),
        vec!["sg-1".to_string(), "sg-2".to_string(), "sg-3".to_string()]
    );
    assert!(get_target_sg_ids(&doc(r#"{"NetworkInterfaces": []}"#)).is_empty());
    assert!(get_target_sg_ids(&doc("null")).is_empty());
}

#[test]
fn security_group_rules_are_read_in_order() {
    let d = doc(
        r#"{"SecurityGroups": [
            {"IpPermissions": [
                {"IpProtocol": "tcp", "FromPort": 8080, "ToPort": 8090,
                 "UserIdGroupPairs": [{"GroupId": "sg-relay"}, {"UserId": "1"}, {"GroupId": "sg-relay"}]},
                {"IpProtocol": "-1", "UserIdGroupPairs": [{"GroupId": "sg-any"}]}
            ]},
            {"GroupId": "sg-without-permissions"},
            {"IpPermissions": [
                {"FromPort": -1, "ToPort": -1, "UserIdGroupPairs": []},
                {"IpProtocol": "udp", "FromPort": 53, "ToPort": 53}
            ]}
        ]}"#,
    );
    let rules = parse_security_group_rules(&d);
    assert_eq!(rules.len(), 4);
    assert_eq!(rules[0].protocol, "tcp");
    assert_eq!((rules[0].from_port, rules[0].to_port), (8080, 8090));
    assert_eq!(rules[0].source_groups, vec!["sg-relay".to_string(), "sg-relay".to_string()]);
    assert_eq!(rules[1].protocol, "-1");
    assert_eq!((rules[1].from_port, rules[1].to_port), (0, 0));
    assert_eq!(rules[1].source_groups, vec!["sg-any".to_string()]);
    assert_eq!(rules[2].protocol, "");
    assert_eq!((rules[2].from_port, rules[2].to_port), (65535, 65535));
    assert!(rules[2].source_groups.is_empty());
    assert_eq!(rules[3].protocol, "udp");
    assert!(rules[3].source_groups.is_empty());

    assert_eq!(
        get_allowed_source_sgs(&rules, 8085),
        vec!["sg-relay".to_string(), "sg-any".to_string()]
    );
    assert_eq!(get_allowed_source_sgs(&rules, 53), vec!["sg-any".to_string()]);
    assert!(parse_security_group_rules(&doc("{}")).is_empty());
}
