use awsx2::commands::{
    aws_cmd, command_outcome, effective_profile, make_parameters, make_ssm_cmd,
    modify_instance_type, run_aws, run_aws_silent, sso_login, start_direct_tunnel, start_instance,
    start_remote_tunnel, stop_instance,
};
use awsx2::error::AppError;

fn strings(items: &[&str]) -> Vec<String> {
    items.iter().map(|s| s.to_string()).collect()
}

#[test]
fn explicit_profile_wins_over_the_ambient_one() {
    assert_eq!(effective_profile(Some("a"), Some("b")), Some("a".to_string()));
    assert_eq!(effective_profile(Some(""), Some("b")), Some(String::new()));
    assert_eq!(effective_profile(None, Some("b")), Some("b".to_string()));
    assert_eq!(effective_profile(None, Some("")), None);
    assert_eq!(effective_profile(None, None), None);
}

#[test]
fn profile_selection_starts_the_command_line() {
    assert_eq!(aws_cmd(Some("prod")), strings(&["--profile", "prod"]));
    assert!(aws_cmd(None).is_empty());
}

#[test]
fn queries_ask_for_json() {
    assert_eq!(
        run_aws(&["sts", "get-caller-identity"], Some("p")),
        strings(&["--profile", "p", "sts", "get-caller-identity", "--output", "json"])
    );
    assert_eq!(run_aws(&[], None), strings(&["--output", "json"]));
    assert_eq!(run_aws_silent(&["a", "b"], None), strings(&["a", "b"]));
    assert!(run_aws_silent(&[], None).is_empty());
}

#[test]
fn instance_actions_have_their_command_lines() {
    assert_eq!(
        start_instance("i-1", None),
        strings(&["ec2", "start-instances", "--instance-ids", "i-1"])
    );
    assert_eq!(
        stop_instance("i-1", false, Some("p")),
        strings(&["--profile", "p", "ec2", "stop-instances", "--instance-ids", "i-1"])
    );
    assert_eq!(
        stop_instance("i-1", true, None),
        strings(&["ec2", "stop-instances", "--instance-ids", "i-1", "--force"])
    );
    assert_eq!(
        modify_instance_type("i-1", "g4dn.4xlarge", None),
        strings(&[
            "ec2",
            "modify-instance-attribute",
            "--instance-id",
            "i-1",
            "--instance-type",
            "g4dn.4xlarge"
        ])
    );
    assert_eq!(sso_login(Some("p")), strings(&["--profile", "p", "sso", "login"]));
    assert_eq!(sso_login(None), strings(&["sso", "login"]));
}

#[test]
fn failed_query_carries_the_trimmed_diagnostic() {
    match command_outcome(false, "ignored".to_string(), "  \n An error occurred \t\r\n") {
        Err(AppError::UpstreamQueryFailure(text)) => assert_eq!(text, "An error occurred"),
        other => panic!("unexpected {:?}", other),
    }
    match command_outcome(false, String::new(), " \n ") {
        Err(AppError::UpstreamQueryFailure(text)) => assert_eq!(text, ""),
        other => panic!("unexpected {:?}", other),
    }
    assert_eq!(command_outcome(true, " out \n".to_string(), "warning").unwrap(), " out \n");
}

#[test]
fn launch_parameters_are_written_as_the_agent_takes_them() {
    assert_eq!(
        make_parameters(None, 18000, 8000),
        r#"{"portNumber":["8000"],"localPortNumber":["18000"]}"#
    );
    assert_eq!(
        make_parameters(Some("10.0.1.42"), 8501, 443),
        r#"{"host":["10.0.1.42"],"portNumber":["443"],"localPortNumber":["8501"]}"#
    );
    assert_eq!(
        make_parameters(Some(""), 0, 65535),
        r#"{"host":[""],"portNumber":["65535"],"localPortNumber":["0"]}"#
    );
}

#[test]
fn forwarding_sessions_have_their_command_lines() {
    assert_eq!(
        start_direct_tunnel("i-1", 18000, 8000, None),
        strings(&[
            "ssm",
            "start-session",
            "--target",
            "i-1",
            "--document-name",
            "AWS-StartPortForwardingSession",
            "--parameters",
            r#"{"portNumber":["8000"],"localPortNumber":["18000"]}"#
        ])
    );
    assert_eq!(
        start_remote_tunnel("i-b", "db.internal", 5432, 5432, Some("prod")),
        strings(&[
            "--profile",
            "prod",
            "ssm",
            "start-session",
            "--target",
            "i-b",
            "--document-name",
            "AWS-StartPortForwardingSessionToRemoteHost",
            "--parameters",
            r#"{"host":["db.internal"],"portNumber":["5432"],"localPortNumber":["5432"]}"#
        ])
    );
    assert_eq!(
        make_ssm_cmd("i", "doc", "{}", None),
        strings(&["ssm", "start-session", "--target", "i", "--document-name", "doc", "--parameters", "{}"])
    );
}
