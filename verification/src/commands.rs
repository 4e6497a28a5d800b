//! The command lines with which the control plane is asked and the
//! forwarding agent is launched, and what their outcome means.
//!
//! A command line is the list of arguments handed to the `aws` program. The
//! profile is an explicit value: nothing here reads the environment.

use vstd::prelude::*;
use vstd::string::StringExecFns;
use crate::decimal::{decimal_digits, push_decimal};
use crate::error::{AppError, AppErrorView};
use crate::models::texts;
use crate::text::{trim, trimmed};

verus! {

/// The texts of a list of string slices.
pub open spec fn strs(args: Seq<&str>) -> Seq<Seq<char>> {
    Seq::new(args.len(), |i: int| args[i]@)
}

/// The profile that a call uses: the one given, else the ambient one unless
/// that is empty.
pub open spec fn chosen_profile(explicit: Option<Seq<char>>, ambient: Option<Seq<char>>) -> Option<
    Seq<char>,
> {
    match explicit {
        Some(p) => Some(p),
        None => match ambient {
            Some(p) => if p.len() > 0 {
                Some(p)
            } else {
                None
            },
            None => None,
        },
    }
}

/// The arguments that select a profile.
pub open spec fn profile_args(profile: Option<Seq<char>>) -> Seq<Seq<char>> {
    match profile {
        Some(p) => seq!["--profile"@, p],
        None => Seq::empty(),
    }
}

pub open spec fn opt_str(o: Option<&str>) -> Option<Seq<char>> {
    match o {
        Some(s) => Some(s@),
        None => None,
    }
}

pub fn effective_profile(explicit: Option<&str>, ambient: Option<&str>) -> (r: Option<String>)
    ensures
        crate::models::opt_text(r) == chosen_profile(opt_str(explicit), opt_str(ambient)),
{
    match explicit {
        Some(p) => Some(String::from_str(p)),
        None => match ambient {
            Some(p) => if p.unicode_len() > 0 {
                Some(String::from_str(p))
            } else {
                None
            },
            None => None,
        },
    }
}

pub(crate) fn push_arg(args: &mut Vec<String>, arg: &str)
    ensures
        texts(final(args)@) == texts(old(args)@).push(arg@),
{
    args.push(String::from_str(arg));
    assert(texts(args@) =~= texts(old(args)@).push(arg@));
}

/// The start of every command line: the profile selection, if any.
pub fn aws_cmd(profile: Option<&str>) -> (args: Vec<String>)
    ensures
        texts(args@) == profile_args(opt_str(profile)),
{
    let mut args: Vec<String> = Vec::new();
    assert(texts(args@) =~= Seq::<Seq<char>>::empty());
    match profile {
        Some(p) => {
            push_arg(&mut args, "--profile");
            push_arg(&mut args, p);
            assert(texts(args@) =~= seq!["--profile"@, p@]);
        },
        None => {},
    }
    args
}

/// The command line of an action: the profile selection, then the arguments.
pub fn run_aws_silent(args: &[&str], profile: Option<&str>) -> (line: Vec<String>)
    ensures
        texts(line@) == profile_args(opt_str(profile)) + strs(args@),
{
    let mut line = aws_cmd(profile);
    let mut i: usize = 0;
    assert(texts(line@) =~= profile_args(opt_str(profile)) + strs(args@).take(0));
    while i < args.len()
        invariant
            i <= args.len(),
            texts(line@) == profile_args(opt_str(profile)) + strs(args@).take(i as int),
        decreases args.len() - i,
    {
        push_arg(&mut line, args[i]);
        assert(texts(line@) =~= profile_args(opt_str(profile)) + strs(args@).take(i + 1));
        i += 1;
    }
    assert(strs(args@).take(i as int) =~= strs(args@));
    line
}

/// The command line of a query: as that of an action, and asking for JSON.
pub fn run_aws(args: &[&str], profile: Option<&str>) -> (line: Vec<String>)
    ensures
        texts(line@) == profile_args(opt_str(profile)) + strs(args@) + seq!["--output"@, "json"@],
{
    let mut line = run_aws_silent(args, profile);
    push_arg(&mut line, "--output");
    push_arg(&mut line, "json");
    assert(texts(line@) =~= profile_args(opt_str(profile)) + strs(args@) + seq![
        "--output"@,
        "json"@,
    ]);
    line
}

/// What a finished query means: its output, or `UpstreamQueryFailure` with
/// the trimmed diagnostic text where the program reported failure.
pub fn command_outcome(success: bool, stdout: String, stderr: &str) -> (r: Result<String, AppError>)
    ensures
        match r {
            Ok(out) => success && out == stdout,
            Err(e) => !success && e@ == AppErrorView::UpstreamQueryFailure(trimmed(stderr@)),
        },
{
    if success {
        Ok(stdout)
    } else {
        Err(AppError::UpstreamQueryFailure(trim(stderr)))
    }
}

/// The command line that starts an instance.
pub fn start_instance(id: &str, profile: Option<&str>) -> (line: Vec<String>)
    ensures
        texts(line@) == profile_args(opt_str(profile)) + seq![
            "ec2"@,
            "start-instances"@,
            "--instance-ids"@,
            id@,
        ],
{
    let args = ["ec2", "start-instances", "--instance-ids", id];
    assert(strs(args@) =~= seq!["ec2"@, "start-instances"@, "--instance-ids"@, id@]);
    run_aws_silent(&args, profile)
}

/// The command line that stops an instance, by force where `force` is set.
pub fn stop_instance(id: &str, force: bool, profile: Option<&str>) -> (line: Vec<String>)
    ensures
        texts(line@) == profile_args(opt_str(profile)) + seq![
            "ec2"@,
            "stop-instances"@,
            "--instance-ids"@,
            id@,
        ] + (if force {
            seq!["--force"@]
        } else {
            Seq::<Seq<char>>::empty()
        }),
{
    let args = ["ec2", "stop-instances", "--instance-ids", id];
    assert(strs(args@) =~= seq!["ec2"@, "stop-instances"@, "--instance-ids"@, id@]);
    let mut line = run_aws_silent(&args, profile);
    if force {
        push_arg(&mut line, "--force");
        assert(texts(line@) =~= profile_args(opt_str(profile)) + seq![
            "ec2"@,
            "stop-instances"@,
            "--instance-ids"@,
            id@,
        ] + seq!["--force"@]);
    } else {
        assert(texts(line@) =~= profile_args(opt_str(profile)) + seq![
            "ec2"@,
            "stop-instances"@,
            "--instance-ids"@,
            id@,
        ] + Seq::<Seq<char>>::empty());
    }
    line
}

/// The command line that changes the type of an instance.
pub fn modify_instance_type(id: &str, new_type: &str, profile: Option<&str>) -> (line: Vec<String>)
    ensures
        texts(line@) == profile_args(opt_str(profile)) + seq![
            "ec2"@,
            "modify-instance-attribute"@,
            "--instance-id"@,
            id@,
            "--instance-type"@,
            new_type@,
        ],
{
    let args = [
        "ec2",
        "modify-instance-attribute",
        "--instance-id",
        id,
        "--instance-type",
        new_type,
    ];
    assert(strs(args@) =~= seq![
        "ec2"@,
        "modify-instance-attribute"@,
        "--instance-id"@,
        id@,
        "--instance-type"@,
        new_type@,
    ]);
    run_aws_silent(&args, profile)
}

/// The command line of a single sign-on login.
pub fn sso_login(profile: Option<&str>) -> (line: Vec<String>)
    ensures
        texts(line@) == profile_args(opt_str(profile)) + seq!["sso"@, "login"@],
{
    let args = ["sso", "login"];
    assert(strs(args@) =~= seq!["sso"@, "login"@]);
    run_aws_silent(&args, profile)
}

// ── The forwarding agent ─────────────────────────────────────────────────

/// The launch parameters of a forwarding session, as the agent takes them
/// and as the process table shows them afterwards.
pub open spec fn forwarding_parameters(host: Option<Seq<char>>, local_port: u16, remote_port: u16)
    -> Seq<char> {
    let ports = "\"portNumber\":[\""@ + decimal_digits(remote_port as nat)
        + "\"],\"localPortNumber\":[\""@ + decimal_digits(local_port as nat) + "\"]}"@;
    match host {
        Some(h) => "{\"host\":[\""@ + h + "\"],"@ + ports,
        None => "{"@ + ports,
    }
}

/// The document that a forwarding session runs: to a port of the instance
/// itself, or through it to a remote host.
pub open spec fn session_document(host: Option<Seq<char>>) -> Seq<char> {
    match host {
        Some(_) => "AWS-StartPortForwardingSessionToRemoteHost"@,
        None => "AWS-StartPortForwardingSession"@,
    }
}

/// The command line that launches the forwarding agent.
pub open spec fn session_command(
    instance_id: Seq<char>,
    host: Option<Seq<char>>,
    local_port: u16,
    remote_port: u16,
    profile: Option<Seq<char>>,
) -> Seq<Seq<char>> {
    profile_args(profile) + seq![
        "ssm"@,
        "start-session"@,
        "--target"@,
        instance_id,
        "--document-name"@,
        session_document(host),
        "--parameters"@,
        forwarding_parameters(host, local_port, remote_port),
    ]
}

/// Writes the launch parameters of a forwarding session.
pub fn make_parameters(host: Option<&str>, local_port: u16, remote_port: u16) -> (params: String)
    ensures
        params@ == forwarding_parameters(opt_str(host), local_port, remote_port),
{
    let mut params = String::new();
    match host {
        Some(h) => {
            params.append("{\"host\":[\"");
            params.append(h);
            params.append("\"],");
        },
        None => {
            params.append("{");
        },
    }
    params.append("\"portNumber\":[\"");
    push_decimal(&mut params, remote_port as u64);
    params.append("\"],\"localPortNumber\":[\"");
    push_decimal(&mut params, local_port as u64);
    params.append("\"]}");
    assert(params@ =~= forwarding_parameters(opt_str(host), local_port, remote_port));
    params
}

/// The command line that launches the forwarding agent against an instance.
pub fn make_ssm_cmd(instance_id: &str, doc_name: &str, params: &str, profile: Option<&str>) -> (line:
    Vec<String>)
    ensures
        texts(line@) == profile_args(opt_str(profile)) + seq![
            "ssm"@,
            "start-session"@,
            "--target"@,
            instance_id@,
            "--document-name"@,
            doc_name@,
            "--parameters"@,
            params@,
        ],
{
    let args = [
        "ssm",
        "start-session",
        "--target",
        instance_id,
        "--document-name",
        doc_name,
        "--parameters",
        params,
    ];
    assert(strs(args@) =~= seq![
        "ssm"@,
        "start-session"@,
        "--target"@,
        instance_id@,
        "--document-name"@,
        doc_name@,
        "--parameters"@,
        params@,
    ]);
    run_aws_silent(&args, profile)
}

/// The command line of a forwarding session to a port of the instance.
pub fn start_direct_tunnel(
    instance_id: &str,
    local_port: u16,
    remote_port: u16,
    profile: Option<&str>,
) -> (line: Vec<String>)
    ensures
        texts(line@) == session_command(
            instance_id@,
            None,
            local_port,
            remote_port,
            opt_str(profile),
        ),
{
    let params = make_parameters(None, local_port, remote_port);
    make_ssm_cmd(instance_id, "AWS-StartPortForwardingSession", params.as_str(), profile)
}

/// The command line of a forwarding session through a relay to a host.
pub fn start_remote_tunnel(
    bastion_id: &str,
    host: &str,
    local_port: u16,
    remote_port: u16,
    profile: Option<&str>,
) -> (line: Vec<String>)
    ensures
        texts(line@) == session_command(
            bastion_id@,
            Some(host@),
            local_port,
            remote_port,
            opt_str(profile),
        ),
{
    let params = make_parameters(Some(host), local_port, remote_port);
    make_ssm_cmd(
        bastion_id,
        "AWS-StartPortForwardingSessionToRemoteHost",
        params.as_str(),
        profile,
    )
}

} // verus!
