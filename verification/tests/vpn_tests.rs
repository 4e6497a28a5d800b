use awsx2::error::AppError;
use awsx2::tui::VpnConfig;
use awsx2::vpn::{
    bundled_paths, challenge_from, challenge_password, check_config, credentials_text,
    extract_saml_from_form, extract_saml_from_query, fetch_saml_challenge, find_aws_openvpn,
    find_vpn_pid, get_vpn_ip, last_lines_of, openvpn_cmd, pin_config_to_server, prepare_ovpn_config,
    resolver_path, response_password, saml_response_in, saml_wait, server_address,
    tunnel_interface, wants_dns, SamlWait, SAML_LISTEN_PORT, TUNNEL_INTERFACES,
};
use awsx2::text::lines_of;

fn config(path: &str, user: &str, pass: &str) -> VpnConfig {
    VpnConfig {
        sso_username: user.to_string(),
        sso_password: pass.to_string(),
        ovpn_path: path.to_string(),
        dns_server: String::new(),
        dns_domain: String::new(),
    }
}

fn strings(items: &[&str]) -> Vec<String> {
    items.iter().map(|s| s.to_string()).collect()
}

#[test]
fn lines_are_split_as_std_splits_them() {
    for text in ["", "a", "a\n", "a\nb", "a\r\nb\r\n", "\n", "\n\n", "a\r", "a\r\n\r\nb", "\r\n", "a\n\rb\n", "x\r\r\ny"] {
        let ours: Vec<String> =
            lines_of(&text.chars().collect()).iter().map(|l| l.iter().collect()).collect();
        let theirs: Vec<String> = text.lines().map(|l| l.to_string()).collect();
        assert_eq!(ours, theirs, "lines of {:?}", text);
    }
}

#[test]
fn federation_lines_leave_the_configuration() {
    let content = "client\n  auth-federate\nremote host 443\nauth-retry interact\r\n\tauth-nocache\nverb 3\n# auth-federate\n";
    assert_eq!(
        prepare_ovpn_config(content),
        "client\nremote host 443\nverb 3\n# auth-federate\n"
    );
    assert_eq!(prepare_ovpn_config(""), "\n");
    assert_eq!(prepare_ovpn_config("auth-federate"), "\n");
    assert_eq!(prepare_ovpn_config("a\r\nb"), "a\nb\n");
    assert_eq!(prepare_ovpn_config("a\n\nb\n"), "a\n\nb\n");
}

#[test]
fn configuration_is_pinned_to_one_server() {
    let content = "client\nremote a.example.test 443\n remote-random-hostname\nremotely 1\nverb 3\n";
    assert_eq!(
        pin_config_to_server(content, "10.1.2.3", "443"),
        "client\nremotely 1\nverb 3\nremote 10.1.2.3 443\n"
    );
    assert_eq!(pin_config_to_server("", "h", "1"), "\nremote h 1\n");
    assert_eq!(pin_config_to_server("remote x 1", "h", "1"), "\nremote h 1\n");
}

#[test]
fn credentials_and_passwords_are_written() {
    assert_eq!(SAML_LISTEN_PORT, 35001);
    assert_eq!(credentials_text("N/A", "secret"), "N/A\nsecret\n");
    assert_eq!(challenge_password(), "ACS::35001");
    assert_eq!(response_password("sid-1", "PHNhbWw+"), "CRV1::sid-1::PHNhbWw+");
}

#[test]
fn server_is_split_at_the_first_colon() {
    assert_eq!(server_address("10.1.2.3:443"), Some(("10.1.2.3".to_string(), "443".to_string())));
    assert_eq!(server_address("a:b:c"), Some(("a".to_string(), "b:c".to_string())));
    assert_eq!(server_address(":"), Some((String::new(), String::new())));
    assert_eq!(server_address("10.1.2.3"), None);
    assert_eq!(server_address(""), None);
}

#[test]
fn bundled_daemon_is_found_by_its_files() {
    assert_eq!(bundled_paths(true).len(), 2);
    assert_eq!(
        bundled_paths(false),
        strings(&[
            "/opt/awsvpnclient/Service/Resources/openvpn/ld-musl-x86_64.so.1",
            "/opt/awsvpnclient/Service/Resources/openvpn/acvc-openvpn"
        ])
    );
    assert_eq!(
        find_aws_openvpn(false, &[true, true]),
        Some(strings(&[
            "/opt/awsvpnclient/Service/Resources/openvpn/ld-musl-x86_64.so.1",
            "--library-path",
            "/opt/awsvpnclient/Service/Resources/openvpn",
            "/opt/awsvpnclient/Service/Resources/openvpn/acvc-openvpn"
        ]))
    );
    assert_eq!(find_aws_openvpn(false, &[true, false]), None);
    assert_eq!(find_aws_openvpn(false, &[false, true]), None);
    assert_eq!(find_aws_openvpn(true, &[true, true]), Some(vec![bundled_paths(true)[0].clone()]));
    assert_eq!(find_aws_openvpn(true, &[false, true]), Some(vec![bundled_paths(true)[1].clone()]));
    assert_eq!(find_aws_openvpn(true, &[false, false]), None);
    assert_eq!(find_aws_openvpn(true, &[true]), None);
}

#[test]
fn daemon_command_line_is_built() {
    assert_eq!(
        openvpn_cmd(None, false, "/tmp/c", "/tmp/p"),
        strings(&["openvpn", "--config", "/tmp/c", "--auth-user-pass", "/tmp/p", "--verb", "3"])
    );
    assert_eq!(
        openvpn_cmd(None, true, "/tmp/c", "/tmp/p"),
        strings(&["sudo", "openvpn", "--config", "/tmp/c", "--auth-user-pass", "/tmp/p", "--verb", "3"])
    );
    assert_eq!(
        openvpn_cmd(Some(strings(&["/x/ld", "--library-path", "/x", "/x/acvc"])), true, "c", "p"),
        strings(&[
            "sudo",
            "/x/ld",
            "--library-path",
            "/x",
            "/x/acvc",
            "--config",
            "c",
            "--auth-user-pass",
            "p",
            "--verb",
            "3"
        ])
    );
    assert_eq!(openvpn_cmd(Some(strings(&["/x/acvc"])), false, "c", "p")[0], "/x/acvc");
}

#[test]
fn process_id_is_read_from_the_first_line() {
    assert_eq!(find_vpn_pid("1234\n5678\n"), Some(1234));
    assert_eq!(find_vpn_pid("  42 \n"), Some(42));
    assert_eq!(find_vpn_pid(""), None);
    assert_eq!(find_vpn_pid("\n12\n"), None);
    assert_eq!(find_vpn_pid("12 34"), None);
    assert_eq!(find_vpn_pid("4294967296"), None);
}

#[test]
fn interfaces_and_resolver_files_are_named() {
    assert_eq!(TUNNEL_INTERFACES, 8);
    assert_eq!(tunnel_interface(0), "tun0");
    assert_eq!(tunnel_interface(7), "tun7");
    assert_eq!(resolver_path("~internal.example.test"), "/etc/resolver/internal.example.test");
    assert_eq!(resolver_path("~~x~"), "/etc/resolver/x~");
    assert_eq!(resolver_path("plain"), "/etc/resolver/plain");
    let mut c = config("", "", "");
    assert!(!wants_dns(&c));
    c.dns_server = "10.0.0.2".to_string();
    assert!(!wants_dns(&c));
    c.dns_domain = "~internal".to_string();
    assert!(wants_dns(&c));
}

#[test]
fn connection_needs_a_complete_setup() {
    assert!(check_config(&config("/x.ovpn", "u", "p")).is_ok());
    match check_config(&config("", "u", "p")) {
        Err(AppError::Vpn(m)) => {
            assert_eq!(m, "No .ovpn file path configured. Run 'awsx2 vpn setup' first.")
        }
        other => panic!("unexpected {:?}", other),
    }
    for (u, p) in [("", "p"), ("u", ""), ("", "")] {
        match check_config(&config("/x.ovpn", u, p)) {
            Err(AppError::Vpn(m)) => {
                assert_eq!(m, "SSO credentials not configured. Run 'awsx2 vpn setup' first.")
            }
            other => panic!("unexpected {:?}", other),
        }
    }
}

#[test]
fn waiting_for_the_sign_on_falls_back_once_and_gives_up_late() {
    assert_eq!(saml_wait(0, false, false), SamlWait::Listen);
    assert_eq!(saml_wait(25_000, false, false), SamlWait::Listen);
    assert_eq!(saml_wait(25_001, false, false), SamlWait::OpenBrowser);
    assert_eq!(saml_wait(25_001, false, true), SamlWait::Listen);
    assert_eq!(saml_wait(1, true, false), SamlWait::OpenBrowser);
    assert_eq!(saml_wait(1, true, true), SamlWait::Listen);
    assert_eq!(saml_wait(120_000, true, false), SamlWait::OpenBrowser);
    assert_eq!(saml_wait(120_001, true, false), SamlWait::GiveUp);
    assert_eq!(saml_wait(120_001, false, true), SamlWait::GiveUp);
}

#[test]
fn challenge_is_read_from_the_daemon_output() {
    let output = "2026-01-01 12:00:00 TCP/UDP: Preserving recently used remote address: [AF_INET]10.1.2.3:443\n\
        2026-01-01 12:00:00 TCPv4_CLIENT link remote: [AF_INET]10.1.2.3:443\n\
        2026-01-01 12:00:01 AUTH: Received control message: AUTH_FAILED,CRV1:R:instance-1/12345/abc-def:b'Ti9B':https://portal.sso.us-east-1.amazonaws.com/saml/assertion/XYZ?x=1, other\n";
    let c = fetch_saml_challenge(output).unwrap();
    assert_eq!(c.saml_url, "https://portal.sso.us-east-1.amazonaws.com/saml/assertion/XYZ?x=1");
    assert_eq!(c.sid, "instance-1/12345/abc-def");
    assert_eq!(c.server_ip.as_deref(), Some("10.1.2.3:443"));

    let c = fetch_saml_challenge("CRV1:R:s1:x https://portal.sso.example.test/a\tb").unwrap();
    assert_eq!((c.saml_url.as_str(), c.sid.as_str()), ("https://portal.sso.example.test/a", "s1"));
    assert_eq!(c.server_ip, None);
}

#[test]
fn missing_challenge_parts_are_reported() {
    match fetch_saml_challenge("one\ntwo\nthree\nfour\nfive\nsix\r\nseven") {
        Err(AppError::SamlAuth(m)) => assert_eq!(
            m,
            "Could not extract SAML URL from VPN server output.\nLast lines:\nthree\nfour\nfive\nsix\nseven"
        ),
        other => panic!("unexpected {:?}", other),
    }
    match fetch_saml_challenge("") {
        Err(AppError::SamlAuth(m)) => {
            assert_eq!(m, "Could not extract SAML URL from VPN server output.\nLast lines:\n")
        }
        other => panic!("unexpected {:?}", other),
    }
    match fetch_saml_challenge("https://portal.sso.example.test/a CRV1:R::") {
        Err(AppError::SamlAuth(m)) => assert_eq!(m, "Could not extract session ID (CRV1:R:...)"),
        other => panic!("unexpected {:?}", other),
    }
    let c = challenge_from(Some("u".to_string()), Some("s".to_string()), None, "ignored").unwrap();
    assert_eq!((c.saml_url.as_str(), c.sid.as_str(), c.server_ip), ("u", "s", None));
    assert!(matches!(
        challenge_from(None, Some("s".to_string()), None, "a\nb"),
        Err(AppError::SamlAuth(m)) if m.ends_with("Last lines:\na\nb")
    ));
}

#[test]
fn address_is_read_from_an_interface_description() {
    let description = "4: tun0: <POINTOPOINT,UP> mtu 1500\n    inet 10.8.0.2/24 scope global tun0\n    inet 10.9.9.9/24\n";
    assert_eq!(get_vpn_ip(description), Some("10.8.0.2".to_string()));
    assert_eq!(get_vpn_ip("inet6 fe80::1"), None);
    assert_eq!(get_vpn_ip(""), None);
}

#[test]
fn sign_on_answer_is_found_in_forms_and_queries() {
    assert_eq!(
        extract_saml_from_form("RelayState=x&SAMLResponse=PHNh%0D%0AbWw%2B+IA%3D%3D&other=1"),
        Some("PHNhbWw+IA==".to_string())
    );
    assert_eq!(extract_saml_from_form("SAMLResponse=a&SAMLResponse=b"), Some("a".to_string()));
    assert_eq!(extract_saml_from_form("samlresponse=a"), None);
    assert_eq!(extract_saml_from_form(""), None);
    assert_eq!(
        extract_saml_from_query("/callback?x=1&SAMLResponse=ab%20cd%0A"),
        Some("abcd".to_string())
    );
    assert_eq!(extract_saml_from_query("/callback"), None);
    assert_eq!(extract_saml_from_query("/?SAMLResponse="), Some(String::new()));
    let pairs = vec![("a".to_string(), "1".to_string()), ("SAMLResponse".to_string(), " x \r\n y".to_string())];
    assert_eq!(saml_response_in(&pairs), Some("xy".to_string()));
    assert_eq!(saml_response_in(&[]), None);
}

#[test]
fn last_lines_are_the_end_of_a_text() {
    assert_eq!(last_lines_of("a\nb\nc", 2), "b\nc");
    assert_eq!(last_lines_of("a\nb\nc\n", 5), "a\nb\nc");
    assert_eq!(last_lines_of("a\r\nb", 1), "b");
    assert_eq!(last_lines_of("a\nb", 0), "");
    assert_eq!(last_lines_of("", 3), "");
}
