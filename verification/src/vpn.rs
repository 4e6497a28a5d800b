//! The client VPN: what is written into its configuration, how its daemon
//! is launched, and what its output and the sign-on's answer hold.
//!
//! Files, processes and the browser are the caller's. Here are the texts
//! and command lines that go into them and what is read out of theirs.

use vstd::prelude::*;
use vstd::string::StringExecFns;

use crate::decimal::{decimal_digits, parse_bounded, parse_decimal, push_decimal};
use crate::error::{AppError, AppErrorView};
use crate::models::{opt_text, texts};
use crate::text::{
    buffers, chars_of, find_char, index_of, joined_lines, lines_from, lines_of, matches_at,
    push_joined, skip_spaces, skip_spaces_back, starts_with, string_from, trimmed,
};
use crate::tui::VpnConfig;

verus! {

/// The port on which the answer of the sign-on is awaited.
pub const SAML_LISTEN_PORT: u16 = 35001;

/// How long the daemon may take to hand out the sign-on's address.
pub const CHALLENGE_TIMEOUT_MS: u64 = 20000;

/// How long the answer of the sign-on is awaited.
pub const SAML_TIMEOUT_MS: u64 = 120000;

/// After how long the system's browser takes over from the hidden one.
pub const BROWSER_FALLBACK_MS: u64 = 25000;

/// How long the tunnel interface may take to come up.
pub const INTERFACE_TIMEOUT_MS: u64 = 20000;

/// What the daemon hands out when it is asked to connect: where to sign
/// on, under which session, and which server asked.
#[derive(Debug, Clone)]
pub struct SamlChallenge {
    pub saml_url: String,
    pub sid: String,
    /// Address and port of the server that issued the challenge: the session
    /// is bound to it.
    pub server_ip: Option<String>,
}

// ── Configuration files ──────────────────────────────────────────────────

/// A line of the configuration that only the vendor's own client
/// understands.
pub open spec fn is_federation_line(line: Seq<char>) -> bool {
    let t = trimmed(line);
    starts_with(t, "auth-federate"@) || starts_with(t, "auth-retry"@) || starts_with(
        t,
        "auth-nocache"@,
    )
}

/// A line of the configuration that says which server to connect to.
pub open spec fn is_remote_line(line: Seq<char>) -> bool {
    let t = trimmed(line);
    starts_with(t, "remote "@) || starts_with(t, "remote-random-hostname"@)
}

/// Those of the first `n` lines that are no federation lines.
pub open spec fn plain_lines(lines: Seq<Seq<char>>, n: int) -> Seq<Seq<char>>
    decreases n,
{
    if n <= 0 {
        Seq::empty()
    } else if is_federation_line(lines[n - 1]) {
        plain_lines(lines, n - 1)
    } else {
        plain_lines(lines, n - 1).push(lines[n - 1])
    }
}

/// Those of the first `n` lines that are no remote lines.
pub open spec fn unpinned_lines(lines: Seq<Seq<char>>, n: int) -> Seq<Seq<char>>
    decreases n,
{
    if n <= 0 {
        Seq::empty()
    } else if is_remote_line(lines[n - 1]) {
        unpinned_lines(lines, n - 1)
    } else {
        unpinned_lines(lines, n - 1).push(lines[n - 1])
    }
}

/// The configuration that the daemon is run with: the given one without
/// its federation lines, each line ended by a line feed.
pub open spec fn prepared_config(content: Seq<char>) -> Seq<char> {
    let lines = lines_from(content, 0);
    let kept = plain_lines(lines, lines.len() as int);
    joined_lines(kept, kept.len() as int) + seq!['\n']
}

/// The configuration that connects to one server only: the given one
/// without its remote lines, and a remote line for that server.
pub open spec fn pinned_config(content: Seq<char>, ip: Seq<char>, port: Seq<char>) -> Seq<char> {
    let lines = lines_from(content, 0);
    let kept = unpinned_lines(lines, lines.len() as int);
    joined_lines(kept, kept.len() as int) + "\nremote "@ + ip + " "@ + port + "\n"@
}

fn trimmed_starts_with(line: &Vec<char>, prefix: &str) -> (b: bool)
    ensures
        b == starts_with(trimmed(line@), prefix@),
{
    assert(line@.subrange(0, line.len() as int) =~= line@);
    let a = skip_spaces(line, 0, line.len());
    let b = skip_spaces_back(line, a, line.len());
    let p = chars_of(prefix);
    let hit = matches_at(line, a, &p) && p.len() <= b - a;
    proof {
        let t = trimmed(line@);
        assert(t == line@.subrange(a as int, b as int));
        if p.len() <= b - a {
            assert(t.subrange(0, p.len() as int) =~= line@.subrange(a as int, a + p.len()));
        }
    }
    hit
}

fn federation_line(line: &Vec<char>) -> (b: bool)
    ensures
        b == is_federation_line(line@),
{
    trimmed_starts_with(line, "auth-federate") || trimmed_starts_with(line, "auth-retry")
        || trimmed_starts_with(line, "auth-nocache")
}

fn remote_line(line: &Vec<char>) -> (b: bool)
    ensures
        b == is_remote_line(line@),
{
    trimmed_starts_with(line, "remote ") || trimmed_starts_with(line, "remote-random-hostname")
}

/// Writes the configuration that the daemon is run with.
pub fn prepare_ovpn_config(content: &str) -> (prepared: String)
    ensures
        prepared@ == prepared_config(content@),
{
    let s = chars_of(content);
    let lines = lines_of(&s);
    let mut kept: Vec<Vec<char>> = Vec::new();
    assert(buffers(kept@) =~= Seq::<Seq<char>>::empty());
    let mut i: usize = 0;
    while i < lines.len()
        invariant
            i <= lines.len(),
            buffers(kept@) == plain_lines(buffers(lines@), i as int),
        decreases lines.len() - i,
    {
        assert(buffers(lines@)[i as int] == lines@[i as int]@);
        if !federation_line(&lines[i]) {
            let ghost before = buffers(kept@);
            kept.push(lines[i].clone());
            assert(buffers(kept@) =~= before.push(lines@[i as int]@));
        }
        i += 1;
    }
    let mut out = String::new();
    push_joined(&mut out, &kept);
    out.push('\n');
    assert(out@ =~= prepared_config(content@));
    out
}

/// Writes the configuration that connects to one server only.
pub fn pin_config_to_server(content: &str, ip: &str, port: &str) -> (pinned: String)
    ensures
        pinned@ == pinned_config(content@, ip@, port@),
{
    let s = chars_of(content);
    let lines = lines_of(&s);
    let mut kept: Vec<Vec<char>> = Vec::new();
    assert(buffers(kept@) =~= Seq::<Seq<char>>::empty());
    let mut i: usize = 0;
    while i < lines.len()
        invariant
            i <= lines.len(),
            buffers(kept@) == unpinned_lines(buffers(lines@), i as int),
        decreases lines.len() - i,
    {
        assert(buffers(lines@)[i as int] == lines@[i as int]@);
        if !remote_line(&lines[i]) {
            let ghost before = buffers(kept@);
            kept.push(lines[i].clone());
            assert(buffers(kept@) =~= before.push(lines@[i as int]@));
        }
        i += 1;
    }
    let mut out = String::new();
    push_joined(&mut out, &kept);
    out.append("\nremote ");
    out.append(ip);
    out.append(" ");
    out.append(port);
    out.append("\n");
    assert(out@ =~= pinned_config(content@, ip@, port@));
    out
}

/// The credentials file of the daemon: user and password, a line each.
pub fn credentials_text(user: &str, pass: &str) -> (text: String)
    ensures
        text@ == user@ + "\n"@ + pass@ + "\n"@,
{
    let mut text = String::from_str(user);
    text.append("\n");
    text.append(pass);
    text.append("\n");
    text
}

/// The password that asks the server for the sign-on's address.
pub fn challenge_password() -> (pass: String)
    ensures
        pass@ == "ACS::"@ + decimal_digits(SAML_LISTEN_PORT as nat),
{
    let mut pass = String::from_str("ACS::");
    push_decimal(&mut pass, SAML_LISTEN_PORT as u64);
    pass
}

/// The password that answers the challenge with what the sign-on gave.
pub fn response_password(sid: &str, saml_response: &str) -> (pass: String)
    ensures
        pass@ == "CRV1::"@ + sid@ + "::"@ + saml_response@,
{
    let mut pass = String::from_str("CRV1::");
    pass.append(sid);
    pass.append("::");
    pass.append(saml_response);
    pass
}

/// Address and port of a server, where the text holds a colon: what stands
/// before the first colon, and what stands after it.
pub open spec fn split_server(server: Seq<char>) -> Option<(Seq<char>, Seq<char>)> {
    let at = index_of(server, 0, ':');
    if 0 <= at < server.len() {
        Some((server.subrange(0, at), server.subrange(at + 1, server.len() as int)))
    } else {
        None
    }
}

pub fn server_address(server: &str) -> (r: Option<(String, String)>)
    ensures
        match r {
            Some(pair) => split_server(server@) == Some((pair.0@, pair.1@)),
            None => split_server(server@) is None,
        },
{
    let s = chars_of(server);
    let at = find_char(&s, 0, ':');
    if at < s.len() {
        Some((string_from(&s, 0, at), string_from(&s, at + 1, s.len())))
    } else {
        None
    }
}

// ── Launching the daemon ─────────────────────────────────────────────────

/// Where the vendor's own daemon is installed, as the files to look for.
/// On macOS any one of the files is the daemon; elsewhere both files must
/// be there: the loader, and the daemon that it runs.
pub fn bundled_paths(macos: bool) -> (paths: Vec<String>)
    ensures
        texts(paths@) == (if macos {
            seq![
                "/Applications/AWS VPN Client.app/Contents/Resources/openvpn/acvc-openvpn"@,
                "/Applications/AWS VPN Client/AWS VPN Client.app/Contents/Resources/openvpn/acvc-openvpn"@,
            ]
        } else {
            seq![
                "/opt/awsvpnclient/Service/Resources/openvpn/ld-musl-x86_64.so.1"@,
                "/opt/awsvpnclient/Service/Resources/openvpn/acvc-openvpn"@,
            ]
        }),
{
    let mut paths: Vec<String> = Vec::new();
    assert(texts(paths@) =~= Seq::<Seq<char>>::empty());
    if macos {
        crate::commands::push_arg(
            &mut paths,
            "/Applications/AWS VPN Client.app/Contents/Resources/openvpn/acvc-openvpn",
        );
        crate::commands::push_arg(
            &mut paths,
            "/Applications/AWS VPN Client/AWS VPN Client.app/Contents/Resources/openvpn/acvc-openvpn",
        );
        assert(texts(paths@) =~= seq![
            "/Applications/AWS VPN Client.app/Contents/Resources/openvpn/acvc-openvpn"@,
            "/Applications/AWS VPN Client/AWS VPN Client.app/Contents/Resources/openvpn/acvc-openvpn"@,
        ]);
    } else {
        crate::commands::push_arg(
            &mut paths,
            "/opt/awsvpnclient/Service/Resources/openvpn/ld-musl-x86_64.so.1",
        );
        crate::commands::push_arg(
            &mut paths,
            "/opt/awsvpnclient/Service/Resources/openvpn/acvc-openvpn",
        );
        assert(texts(paths@) =~= seq![
            "/opt/awsvpnclient/Service/Resources/openvpn/ld-musl-x86_64.so.1"@,
            "/opt/awsvpnclient/Service/Resources/openvpn/acvc-openvpn"@,
        ]);
    }
    paths
}

/// The command that runs the vendor's own daemon, given which of its files
/// exist: on macOS the first file that exists; elsewhere the loader with
/// the daemon, if both exist. None where it is not installed.
pub open spec fn bundled_command(macos: bool, exists: Seq<bool>) -> Option<Seq<Seq<char>>> {
    if exists.len() != 2 {
        None
    } else if macos {
        if exists[0] {
            Some(seq!["/Applications/AWS VPN Client.app/Contents/Resources/openvpn/acvc-openvpn"@])
        } else if exists[1] {
            Some(
                seq![
                    "/Applications/AWS VPN Client/AWS VPN Client.app/Contents/Resources/openvpn/acvc-openvpn"@,
                ],
            )
        } else {
            None
        }
    } else if exists[0] && exists[1] {
        Some(
            seq![
                "/opt/awsvpnclient/Service/Resources/openvpn/ld-musl-x86_64.so.1"@,
                "--library-path"@,
                "/opt/awsvpnclient/Service/Resources/openvpn"@,
                "/opt/awsvpnclient/Service/Resources/openvpn/acvc-openvpn"@,
            ],
        )
    } else {
        None
    }
}

/// The texts of an optional list.
pub open spec fn opt_texts(o: Option<Vec<String>>) -> Option<Seq<Seq<char>>> {
    match o {
        Some(v) => Some(texts(v@)),
        None => None,
    }
}

pub fn find_aws_openvpn(macos: bool, exists: &[bool]) -> (r: Option<Vec<String>>)
    ensures
        opt_texts(r) == bundled_command(macos, exists@),
{
    if exists.len() != 2 {
        return None;
    }
    let mut line: Vec<String> = Vec::new();
    assert(texts(line@) =~= Seq::<Seq<char>>::empty());
    if macos {
        if exists[0] {
            crate::commands::push_arg(
                &mut line,
                "/Applications/AWS VPN Client.app/Contents/Resources/openvpn/acvc-openvpn",
            );
            assert(texts(line@) =~= seq![
                "/Applications/AWS VPN Client.app/Contents/Resources/openvpn/acvc-openvpn"@,
            ]);
            Some(line)
        } else if exists[1] {
            crate::commands::push_arg(
                &mut line,
                "/Applications/AWS VPN Client/AWS VPN Client.app/Contents/Resources/openvpn/acvc-openvpn",
            );
            assert(texts(line@) =~= seq![
                "/Applications/AWS VPN Client/AWS VPN Client.app/Contents/Resources/openvpn/acvc-openvpn"@,
            ]);
            Some(line)
        } else {
            None
        }
    } else if exists[0] && exists[1] {
        crate::commands::push_arg(
            &mut line,
            "/opt/awsvpnclient/Service/Resources/openvpn/ld-musl-x86_64.so.1",
        );
        crate::commands::push_arg(&mut line, "--library-path");
        crate::commands::push_arg(&mut line, "/opt/awsvpnclient/Service/Resources/openvpn");
        crate::commands::push_arg(
            &mut line,
            "/opt/awsvpnclient/Service/Resources/openvpn/acvc-openvpn",
        );
        assert(texts(line@) =~= seq![
            "/opt/awsvpnclient/Service/Resources/openvpn/ld-musl-x86_64.so.1"@,
            "--library-path"@,
            "/opt/awsvpnclient/Service/Resources/openvpn"@,
            "/opt/awsvpnclient/Service/Resources/openvpn/acvc-openvpn"@,
        ]);
        Some(line)
    } else {
        None
    }
}

/// The arguments that every run of the daemon ends with.
pub open spec fn daemon_args(config_path: Seq<char>, creds_path: Seq<char>) -> Seq<Seq<char>> {
    seq!["--config"@, config_path, "--auth-user-pass"@, creds_path, "--verb"@, "3"@]
}

/// The command line of the daemon, program first: the vendor's own daemon
/// where it is installed, else `openvpn`; run through `sudo` where
/// `elevate` is set.
pub open spec fn daemon_command(
    bundled: Option<Seq<Seq<char>>>,
    elevate: bool,
    config_path: Seq<char>,
    creds_path: Seq<char>,
) -> Seq<Seq<char>> {
    (if elevate {
        seq!["sudo"@]
    } else {
        Seq::<Seq<char>>::empty()
    }) + (match bundled {
        Some(line) => line,
        None => seq!["openvpn"@],
    }) + daemon_args(config_path, creds_path)
}

/// The command line of the daemon, program first.
pub fn openvpn_cmd(bundled: Option<Vec<String>>, elevate: bool, config_path: &str, creds_path: &str) -> (line:
    Vec<String>)
    ensures
        texts(line@) == daemon_command(opt_texts(bundled), elevate, config_path@, creds_path@),
{
    let mut line: Vec<String> = Vec::new();
    assert(texts(line@) =~= Seq::<Seq<char>>::empty());
    if elevate {
        crate::commands::push_arg(&mut line, "sudo");
    }
    let ghost head = texts(line@);
    match bundled {
        Some(b) => {
            let mut i: usize = 0;
            assert(texts(line@) =~= head + texts(b@).take(0));
            while i < b.len()
                invariant
                    i <= b.len(),
                    texts(line@) == head + texts(b@).take(i as int),
                decreases b.len() - i,
            {
                crate::commands::push_arg(&mut line, b[i].as_str());
                assert(texts(line@) =~= head + texts(b@).take(i + 1));
                i += 1;
            }
            assert(texts(b@).take(i as int) =~= texts(b@));
        },
        None => {
            crate::commands::push_arg(&mut line, "openvpn");
            assert(texts(line@) =~= head + seq!["openvpn"@]);
        },
    }
    let ghost middle = texts(line@);
    crate::commands::push_arg(&mut line, "--config");
    crate::commands::push_arg(&mut line, config_path);
    crate::commands::push_arg(&mut line, "--auth-user-pass");
    crate::commands::push_arg(&mut line, creds_path);
    crate::commands::push_arg(&mut line, "--verb");
    crate::commands::push_arg(&mut line, "3");
    assert(texts(line@) =~= middle + daemon_args(config_path@, creds_path@));
    line
}

/// The process id that the first line of a process search names.
pub open spec fn first_pid(output: Seq<char>) -> Option<u32> {
    let lines = lines_from(output, 0);
    if lines.len() > 0 {
        match parse_decimal(trimmed(lines[0]), 0xffff_ffff) {
            Some(n) => Some(n as u32),
            None => None,
        }
    } else {
        None
    }
}

pub fn find_vpn_pid(output: &str) -> (pid: Option<u32>)
    ensures
        pid == first_pid(output@),
{
    let s = chars_of(output);
    let lines = lines_of(&s);
    if lines.len() == 0 {
        return None;
    }
    let line = &lines[0];
    assert(buffers(lines@)[0] == line@);
    assert(line@.subrange(0, line.len() as int) =~= line@);
    let a = skip_spaces(line, 0, line.len());
    let b = skip_spaces_back(line, a, line.len());
    parse_bounded(line, a, b, 0xffff_ffff)
}

/// The name of the `n`th tunnel interface.
pub fn tunnel_interface(n: u8) -> (name: String)
    ensures
        name@ == "tun"@ + decimal_digits(n as nat),
{
    let mut name = String::from_str("tun");
    push_decimal(&mut name, n as u64);
    name
}

/// How many tunnel interfaces are looked for.
pub const TUNNEL_INTERFACES: u8 = 8;

/// A routing domain without the tilde that marks it as such.
pub open spec fn bare_domain(domain: Seq<char>) -> Seq<char> {
    crate::text::strip_leading(domain, seq!['~'])
}

/// The resolver file of a routing domain.
pub fn resolver_path(dns_domain: &str) -> (path: String)
    ensures
        path@ == "/etc/resolver/"@ + bare_domain(dns_domain@),
{
    let d = chars_of(dns_domain);
    let mut tilde: Vec<char> = Vec::new();
    tilde.push('~');
    assert(tilde@ =~= seq!['~']);
    assert(d@.subrange(0, d.len() as int) =~= d@);
    let from = crate::text::skip_leading(&d, 0, &tilde);
    let bare = string_from(&d, from, d.len());
    String::from_str("/etc/resolver/").concat(bare.as_str())
}

/// Whether name resolution is to be set up: only with a server and a
/// domain.
pub fn wants_dns(config: &VpnConfig) -> (b: bool)
    ensures
        b == (config.dns_server@.len() > 0 && config.dns_domain@.len() > 0),
{
    config.dns_server.as_str().unicode_len() > 0 && config.dns_domain.as_str().unicode_len() > 0
}

/// Why a connection cannot even be tried, if it cannot: the configuration
/// names no file, or lacks the credentials.
pub fn check_config(config: &VpnConfig) -> (r: Result<(), AppError>)
    ensures
        match r {
            Ok(_) => config.ovpn_path@.len() > 0 && config.sso_username@.len() > 0
                && config.sso_password@.len() > 0,
            Err(e) => if config.ovpn_path@.len() == 0 {
                e@ == AppErrorView::Vpn(
                    "No .ovpn file path configured. Run 'awsx2 vpn setup' first."@,
                )
            } else {
                (config.sso_username@.len() == 0 || config.sso_password@.len() == 0) && e@
                    == AppErrorView::Vpn(
                    "SSO credentials not configured. Run 'awsx2 vpn setup' first."@,
                )
            },
        },
{
    if config.ovpn_path.as_str().unicode_len() == 0 {
        return Err(
            AppError::Vpn(
                String::from_str("No .ovpn file path configured. Run 'awsx2 vpn setup' first."),
            ),
        );
    }
    if config.sso_username.as_str().unicode_len() == 0
        || config.sso_password.as_str().unicode_len() == 0 {
        return Err(
            AppError::Vpn(
                String::from_str("SSO credentials not configured. Run 'awsx2 vpn setup' first."),
            ),
        );
    }
    Ok(())
}

// ── Waiting for the sign-on ──────────────────────────────────────────────

/// What to do while the answer of the sign-on is awaited.
#[derive(Debug, Clone, Copy, PartialEq, Eq, Structural)]
pub enum SamlWait {
    /// Give up: the answer did not come in time.
    GiveUp,
    /// Open the system's browser, then go on listening.
    OpenBrowser,
    /// Go on listening.
    Listen,
}

/// What to do after `elapsed_ms` of waiting: give up once the time allowed
/// is over; hand over to the system's browser, once, when the hidden
/// browser failed or took too long; else go on listening.
pub fn saml_wait(elapsed_ms: u64, browser_failed: bool, fallback_opened: bool) -> (w: SamlWait)
    ensures
        w == (if elapsed_ms > SAML_TIMEOUT_MS {
            SamlWait::GiveUp
        } else if !fallback_opened && (browser_failed || elapsed_ms > BROWSER_FALLBACK_MS) {
            SamlWait::OpenBrowser
        } else {
            SamlWait::Listen
        }),
{
    if elapsed_ms > SAML_TIMEOUT_MS {
        SamlWait::GiveUp
    } else if !fallback_opened && (browser_failed || elapsed_ms > BROWSER_FALLBACK_MS) {
        SamlWait::OpenBrowser
    } else {
        SamlWait::Listen
    }
}

// ── Reading the daemon's output and the sign-on's answer ─────────────────

/// What a regular expression's group captures in the leftmost match in a
/// text; group 0 is the whole match. None where the expression is not
/// well-formed, where nothing matches, and where the group took no part.
pub uninterp spec fn regex_capture(pattern: Seq<char>, text: Seq<char>, group: nat) -> Option<
    Seq<char>,
>;

/// `Regex::new`, `Regex::captures` and `Captures::get` of the regex crate:
/// the text of a group of the leftmost match. The result depends on the
/// expression, the text and the group alone, and is named `regex_capture`.
#[verifier::external_body]
fn first_capture(pattern: &str, text: &str, group: usize) -> (r: Option<String>)
    ensures
        opt_text(r) == regex_capture(pattern@, text@, group as nat),
{
    let re = regex::Regex::new(pattern).ok()?;
    let caps = re.captures(text)?;
    caps.get(group).map(|m| m.as_str().to_string())
}

/// The names and values that a form body holds, percent-decoded, in order.
pub uninterp spec fn form_pairs(body: Seq<char>) -> Seq<(Seq<char>, Seq<char>)>;

/// The names and values of the query of `url`, percent-decoded, in order;
/// none where `url` is no URL.
pub uninterp spec fn query_pairs(url: Seq<char>) -> Option<Seq<(Seq<char>, Seq<char>)>>;

/// The names and values of a list of pairs.
pub open spec fn pair_texts(pairs: Seq<(String, String)>) -> Seq<(Seq<char>, Seq<char>)> {
    Seq::new(pairs.len(), |i: int| (pairs[i].0@, pairs[i].1@))
}

/// `form_urlencoded::parse` of the url crate: every pair that it hands
/// out, in order. The result depends on the body alone, and is named
/// `form_pairs`.
#[verifier::external_body]
fn read_form(body: &str) -> (pairs: Vec<(String, String)>)
    ensures
        pair_texts(pairs@) == form_pairs(body@),
{
    url::form_urlencoded::parse(body.as_bytes()).map(|(k, v)| (k.into_owned(), v.into_owned())).collect()
}

/// `Url::parse` and `Url::query_pairs` of the url crate: every pair of the
/// query, in order, or nothing where the text is no URL. The result depends
/// on the text alone, and is named `query_pairs`.
#[verifier::external_body]
fn read_query(url: &str) -> (r: Option<Vec<(String, String)>>)
    ensures
        match r {
            Some(pairs) => query_pairs(url@) == Some(pair_texts(pairs@)),
            None => query_pairs(url@) is None,
        },
{
    let parsed = url::Url::parse(url).ok()?;
    Some(parsed.query_pairs().map(|(k, v)| (k.into_owned(), v.into_owned())).collect())
}

/// A text without its line feeds, carriage returns and blanks.
pub open spec fn compacted(text: Seq<char>, n: int) -> Seq<char>
    decreases n,
{
    if n <= 0 {
        Seq::empty()
    } else if text[n - 1] == '\n' || text[n - 1] == '\r' || text[n - 1] == ' ' {
        compacted(text, n - 1)
    } else {
        compacted(text, n - 1).push(text[n - 1])
    }
}

/// The value of the first pair at or after `from` that is named `name`,
/// compacted.
pub open spec fn named_value(pairs: Seq<(Seq<char>, Seq<char>)>, name: Seq<char>, from: int)
    -> Option<Seq<char>>
    decreases pairs.len() - from,
{
    if from < 0 || from >= pairs.len() {
        None
    } else if pairs[from].0 == name {
        Some(compacted(pairs[from].1, pairs[from].1.len() as int))
    } else {
        named_value(pairs, name, from + 1)
    }
}

fn compact(text: &str) -> (r: String)
    ensures
        r@ == compacted(text@, text@.len() as int),
{
    let s = chars_of(text);
    let mut r = String::new();
    let mut i: usize = 0;
    assert(r@ =~= compacted(s@, 0));
    while i < s.len()
        invariant
            i <= s.len(),
            r@ == compacted(s@, i as int),
        decreases s.len() - i,
    {
        let c = s[i];
        if !(c == '\n' || c == '\r' || c == ' ') {
            r.push(c);
        }
        i += 1;
    }
    r
}

/// The sign-on's answer among names and values: the value named
/// `SAMLResponse`, without line feeds, carriage returns and blanks.
pub fn saml_response_in(pairs: &[(String, String)]) -> (r: Option<String>)
    ensures
        opt_text(r) == named_value(pair_texts(pairs@), "SAMLResponse"@, 0),
{
    let mut i: usize = 0;
    while i < pairs.len()
        invariant
            i <= pairs.len(),
            named_value(pair_texts(pairs@), "SAMLResponse"@, 0) == named_value(
                pair_texts(pairs@),
                "SAMLResponse"@,
                i as int,
            ),
        decreases pairs.len() - i,
    {
        assert(pair_texts(pairs@)[i as int] == (pairs@[i as int].0@, pairs@[i as int].1@));
        if crate::text::str_eq(pairs[i].0.as_str(), "SAMLResponse") {
            return Some(compact(pairs[i].1.as_str()));
        }
        i += 1;
    }
    None
}

/// The sign-on's answer in the body of a posted form.
pub fn extract_saml_from_form(body: &str) -> (r: Option<String>)
    ensures
        opt_text(r) == named_value(form_pairs(body@), "SAMLResponse"@, 0),
{
    let pairs = read_form(body);
    saml_response_in(pairs.as_slice())
}

/// The sign-on's answer in the query of a requested path.
pub fn extract_saml_from_query(path: &str) -> (r: Option<String>)
    ensures
        opt_text(r) == (match query_pairs("http://localhost"@ + path@) {
            Some(pairs) => named_value(pairs, "SAMLResponse"@, 0),
            None => None,
        }),
{
    let full = String::from_str("http://localhost").concat(path);
    match read_query(full.as_str()) {
        Some(pairs) => saml_response_in(pairs.as_slice()),
        None => None,
    }
}

/// The expression that finds the sign-on's address in the daemon's output.
pub open spec fn url_pattern() -> Seq<char> {
    "https://portal\\.sso\\.[^\\s,]+"@
}

/// The expression that finds the session in the daemon's output.
pub open spec fn sid_pattern() -> Seq<char> {
    "CRV1:R:([^:]+)"@
}

/// The expression that finds the server in the daemon's output.
pub open spec fn server_pattern() -> Seq<char> {
    "link remote: \\[AF_INET\\](\\d+\\.\\d+\\.\\d+\\.\\d+:\\d+)"@
}

/// The expression that finds an address in an interface's description.
pub open spec fn inet_pattern() -> Seq<char> {
    "inet (\\d+\\.\\d+\\.\\d+\\.\\d+)"@
}

/// The last `k` lines at most, with a line feed between every two.
pub open spec fn last_lines(lines: Seq<Seq<char>>, k: int) -> Seq<char> {
    let tail = if lines.len() > k {
        lines.subrange(lines.len() - k, lines.len() as int)
    } else {
        lines
    };
    joined_lines(tail, tail.len() as int)
}

/// The last `k` lines at most of a text, with a line feed between every
/// two.
pub fn last_lines_of(text: &str, k: usize) -> (tail: String)
    ensures
        tail@ == last_lines(lines_from(text@, 0), k as int),
{
    let s = chars_of(text);
    let lines = lines_of(&s);
    let mut kept: Vec<Vec<char>> = Vec::new();
    let from: usize = if lines.len() > k {
        lines.len() - k
    } else {
        0
    };
    let mut i: usize = from;
    assert(buffers(kept@) =~= buffers(lines@).subrange(from as int, from as int));
    while i < lines.len()
        invariant
            from <= i <= lines.len(),
            buffers(kept@) == buffers(lines@).subrange(from as int, i as int),
        decreases lines.len() - i,
    {
        let ghost before = buffers(kept@);
        kept.push(lines[i].clone());
        assert(buffers(kept@) =~= before.push(lines@[i as int]@));
        assert(buffers(kept@) =~= buffers(lines@).subrange(from as int, i + 1));
        i += 1;
    }
    proof {
        if from == 0 {
            assert(buffers(kept@) =~= buffers(lines@));
        }
    }
    let mut tail = String::new();
    push_joined(&mut tail, &kept);
    assert(tail@ =~= last_lines(lines_from(text@, 0), k as int));
    tail
}

/// The challenge that the found parts make, or why there is none: without
/// the sign-on's address, without the session.
pub open spec fn challenge_of(
    url: Option<Seq<char>>,
    sid: Option<Seq<char>>,
    server: Option<Seq<char>>,
    output: Seq<char>,
) -> Result<(Seq<char>, Seq<char>, Option<Seq<char>>), AppErrorView> {
    match url {
        None => Err(
            AppErrorView::SamlAuth(
                "Could not extract SAML URL from VPN server output.\nLast lines:\n"@ + last_lines(
                    lines_from(output, 0),
                    5,
                ),
            ),
        ),
        Some(u) => match sid {
            None => Err(AppErrorView::SamlAuth("Could not extract session ID (CRV1:R:...)"@)),
            Some(s) => Ok((u, s, server)),
        },
    }
}

/// The parts of a challenge.
pub open spec fn challenge_parts(c: SamlChallenge) -> (Seq<char>, Seq<char>, Option<Seq<char>>) {
    (c.saml_url@, c.sid@, opt_text(c.server_ip))
}

/// Makes the challenge of the parts that were found in the daemon's
/// output.
pub fn challenge_from(
    url: Option<String>,
    sid: Option<String>,
    server: Option<String>,
    output: &str,
) -> (r: Result<SamlChallenge, AppError>)
    ensures
        match r {
            Ok(c) => challenge_of(opt_text(url), opt_text(sid), opt_text(server), output@) == Ok::<
                (Seq<char>, Seq<char>, Option<Seq<char>>),
                AppErrorView,
            >(challenge_parts(c)),
            Err(e) => challenge_of(opt_text(url), opt_text(sid), opt_text(server), output@) == Err::<
                (Seq<char>, Seq<char>, Option<Seq<char>>),
                AppErrorView,
            >(e@),
        },
{
    let saml_url = match url {
        Some(u) => u,
        None => {
            let mut message = String::from_str(
                "Could not extract SAML URL from VPN server output.\nLast lines:\n",
            );
            let tail = last_lines_of(output, 5);
            message.append(tail.as_str());
            return Err(AppError::SamlAuth(message));
        },
    };
    let sid = match sid {
        Some(s) => s,
        None => {
            return Err(
                AppError::SamlAuth(String::from_str("Could not extract session ID (CRV1:R:...)")),
            );
        },
    };
    Ok(SamlChallenge { saml_url, sid, server_ip: server })
}

/// Reads the challenge out of what the daemon printed: the sign-on's
/// address, the session, and the server that asked.
pub fn fetch_saml_challenge(output: &str) -> (r: Result<SamlChallenge, AppError>)
    ensures
        ({
            let found = challenge_of(
                regex_capture(url_pattern(), output@, 0),
                regex_capture(sid_pattern(), output@, 1),
                regex_capture(server_pattern(), output@, 1),
                output@,
            );
            match r {
                Ok(c) => found == Ok::<
                    (Seq<char>, Seq<char>, Option<Seq<char>>),
                    AppErrorView,
                >(challenge_parts(c)),
                Err(e) => found == Err::<(Seq<char>, Seq<char>, Option<Seq<char>>), AppErrorView>(
                    e@,
                ),
            }
        }),
{
    let url = first_capture("https://portal\\.sso\\.[^\\s,]+", output, 0);
    let sid = first_capture("CRV1:R:([^:]+)", output, 1);
    let server = first_capture(
        "link remote: \\[AF_INET\\](\\d+\\.\\d+\\.\\d+\\.\\d+:\\d+)",
        output,
        1,
    );
    challenge_from(url, sid, server, output)
}

/// The address that the description of an interface names.
pub fn get_vpn_ip(description: &str) -> (ip: Option<String>)
    ensures
        opt_text(ip) == regex_capture(inet_pattern(), description@, 1),
{
    first_capture("inet (\\d+\\.\\d+\\.\\d+\\.\\d+)", description, 1)
}

} // verus!
