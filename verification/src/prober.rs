//! The process table prober: finds the forwarding sessions that earlier
//! invocations started, from a listing of the process table alone.
//!
//! A listing has one process per line: the process id, then the command
//! line. The command line of a forwarding agent holds the launch parameters
//! as JSON objects, inline or under a `Parameters` member.

use vstd::prelude::*;
use vstd::string::StringExecFns;
use crate::decimal::{parse_bounded, parse_decimal, parse_u16};
use crate::json::{member, parsed_json, text_at, text_of, Json};
use crate::models::{opt_text, texts, TunnelProcess, TunnelProcessView};
use crate::text::{
    buffers, lines_from, lines_of, chars_of, contains, find_blank, find_text, first_occurrence,
    first_token, is_substring, skip_spaces, slice_of, string_from,
};
use crate::tunnel::agent_name;

verus! {

// ── JSON objects in a command line ───────────────────────────────────────

/// Index of the brace that closes the object in which position `i` lies at
/// nesting depth `depth`, or the length if the object is not closed.
pub open spec fn closing(s: Seq<char>, i: int, depth: nat) -> int
    decreases s.len() - i,
{
    if i < 0 || i >= s.len() || depth == 0 {
        s.len() as int
    } else if s[i] == '{' {
        closing(s, i + 1, depth + 1)
    } else if s[i] == '}' {
        if depth == 1 {
            i
        } else {
            closing(s, i + 1, (depth - 1) as nat)
        }
    } else {
        closing(s, i + 1, depth)
    }
}

/// The outermost brace-balanced runs of `s` at or after `i`, in order. A
/// run that is opened and never closed ends the search.
pub open spec fn objects_from(s: Seq<char>, i: int) -> Seq<Seq<char>>
    decreases s.len() - i,
{
    if i < 0 || i >= s.len() {
        Seq::empty()
    } else if s[i] == '{' {
        let c = closing(s, i + 1, 1);
        if i < c < s.len() {
            seq![s.subrange(i, c + 1)] + objects_from(s, c + 1)
        } else {
            Seq::empty()
        }
    } else {
        objects_from(s, i + 1)
    }
}

pub proof fn lemma_closing_bounds(s: Seq<char>, i: int, depth: nat)
    requires
        0 <= i <= s.len(),
        depth > 0,
    ensures
        i <= closing(s, i, depth) <= s.len(),
    decreases s.len() - i,
{
    if i < s.len() {
        if s[i] == '{' {
            lemma_closing_bounds(s, i + 1, depth + 1);
        } else if s[i] == '}' {
            if depth > 1 {
                lemma_closing_bounds(s, i + 1, (depth - 1) as nat);
            }
        } else {
            lemma_closing_bounds(s, i + 1, depth);
        }
    }
}

fn find_closing(s: &Vec<char>, open: usize) -> (c: usize)
    requires
        open < s.len(),
        s@[open as int] == '{',
    ensures
        c as int == closing(s@, open + 1, 1),
        open < c <= s.len(),
{
    let mut i: usize = open + 1;
    let mut depth: usize = 1;
    proof {
        lemma_closing_bounds(s@, open + 1, 1);
    }
    while i < s.len()
        invariant
            open < i <= s.len(),
            0 < depth <= i - open,
            closing(s@, open + 1, 1) == closing(s@, i as int, depth as nat),
        decreases s.len() - i,
    {
        let ch = s[i];
        if ch == '{' {
            depth += 1;
        } else if ch == '}' {
            if depth == 1 {
                return i;
            }
            depth -= 1;
        }
        i += 1;
    }
    i
}

/// The texts of the JSON objects that stand in `s`.
pub fn extract_json_objects(s: &Vec<char>) -> (found: Vec<String>)
    ensures
        texts(found@) == objects_from(s@, 0),
{
    let mut found: Vec<String> = Vec::new();
    let mut i: usize = 0;
    assert(texts(found@) + objects_from(s@, 0) =~= objects_from(s@, 0));
    while i < s.len()
        invariant
            i <= s.len(),
            texts(found@) + objects_from(s@, i as int) == objects_from(s@, 0),
        decreases s.len() - i,
    {
        if s[i] == '{' {
            let c = find_closing(s, i);
            if c < s.len() {
                let ghost before = texts(found@);
                found.push(string_from(s, i, c + 1));
                assert(texts(found@) =~= before.push(s@.subrange(i as int, c + 1)));
                assert(texts(found@) + objects_from(s@, c + 1) =~= before + objects_from(
                    s@,
                    i as int,
                ));
                i = c + 1;
            } else {
                assert(texts(found@) + objects_from(s@, s.len() as int) =~= texts(found@)
                    + objects_from(s@, i as int));
                i = s.len();
            }
        } else {
            i += 1;
        }
    }
    assert(texts(found@) + objects_from(s@, i as int) =~= texts(found@));
    found
}

// ── Launch parameters ────────────────────────────────────────────────────

/// What the launch parameters of a forwarding session say.
#[derive(Debug, Clone)]
pub struct LaunchParameters {
    /// The instance that hosts the session.
    pub instance_id: String,
    /// 0 while no local port was read.
    pub local_port: u16,
    pub remote_port: u16,
    pub remote_host: Option<String>,
}

pub struct LaunchParametersView {
    pub instance_id: Seq<char>,
    pub local_port: u16,
    pub remote_port: u16,
    pub remote_host: Option<Seq<char>>,
}

impl View for LaunchParameters {
    type V = LaunchParametersView;

    open spec fn view(&self) -> LaunchParametersView {
        LaunchParametersView {
            instance_id: self.instance_id@,
            local_port: self.local_port,
            remote_port: self.remote_port,
            remote_host: opt_text(self.remote_host),
        }
    }
}

/// Launch parameters of which nothing is known yet.
pub open spec fn no_parameters() -> LaunchParametersView {
    LaunchParametersView {
        instance_id: Seq::empty(),
        local_port: 0,
        remote_port: 0,
        remote_host: None,
    }
}

/// The text of the first item of the array member `key`.
pub open spec fn first_text_at(doc: Json, key: Seq<char>) -> Option<Seq<char>> {
    match member(doc, key) {
        Some(Json::Array(items)) => if items@.len() > 0 {
            text_of(Some(items@[0]))
        } else {
            None
        },
        _ => None,
    }
}

/// The port that a text denotes; 0 for a text that is no port number.
pub open spec fn port_of_text(text: Seq<char>) -> u16 {
    match parse_decimal(text, 65535) {
        Some(n) => n as u16,
        None => 0,
    }
}

/// Where a document holds its parameters: under `Parameters`, or inline.
pub open spec fn parameters_of(doc: Json) -> Json {
    match member(doc, "Parameters"@) {
        Some(p) => p,
        None => doc,
    }
}

/// What is known of the launch parameters once `doc` is read as well:
/// every member that `doc` states replaces what was known.
pub open spec fn with_document(known: LaunchParametersView, doc: Json) -> LaunchParametersView {
    let params = parameters_of(doc);
    LaunchParametersView {
        instance_id: match text_at(doc, "Target"@) {
            Some(t) => t,
            None => known.instance_id,
        },
        local_port: match first_text_at(params, "localPortNumber"@) {
            Some(p) => port_of_text(p),
            None => known.local_port,
        },
        remote_port: match first_text_at(params, "portNumber"@) {
            Some(p) => port_of_text(p),
            None => known.remote_port,
        },
        remote_host: match first_text_at(params, "host"@) {
            Some(h) => Some(h),
            None => known.remote_host,
        },
    }
}

/// What the first `n` documents say of the launch parameters.
pub open spec fn launch_parameters(docs: Seq<Json>, n: int) -> LaunchParametersView
    decreases n,
{
    if n <= 0 {
        no_parameters()
    } else {
        with_document(launch_parameters(docs, n - 1), docs[n - 1])
    }
}

/// The handle of a discovered session, not probed yet: none without a local
/// port. The session is named after its remote host, or else its instance.
pub open spec fn discovered(pid: u32, params: LaunchParametersView) -> Option<TunnelProcessView> {
    if params.local_port == 0 {
        None
    } else {
        Some(
            TunnelProcessView {
                pid,
                local_port: params.local_port,
                remote_port: params.remote_port,
                remote_host: params.remote_host,
                instance_id: params.instance_id,
                instance_name: match params.remote_host {
                    Some(h) => h,
                    None => params.instance_id,
                },
                port_open: false,
                latency_ms: None,
            },
        )
    }
}

fn first_text<'a>(doc: &'a Json, key: &str) -> (r: Option<&'a str>)
    ensures
        match r {
            Some(s) => first_text_at(*doc, key@) == Some(s@),
            None => first_text_at(*doc, key@) is None,
        },
{
    match doc.get(key) {
        Some(v) => match v {
            Json::Array(items) => if items.len() > 0 {
                items[0].as_str()
            } else {
                None
            },
            _ => None,
        },
        None => None,
    }
}

fn port_from(text: &str) -> (port: u16)
    ensures
        port == port_of_text(text@),
{
    let digits = chars_of(text);
    match parse_u16(&digits) {
        Some(p) => p,
        None => 0,
    }
}

fn read_document(known: &mut LaunchParameters, doc: &Json)
    ensures
        final(known)@ == with_document(old(known)@, *doc),
{
    match doc.text_member("Target") {
        Some(t) => {
            known.instance_id = String::from_str(t);
        },
        None => {},
    }
    let params = match doc.get("Parameters") {
        Some(p) => p,
        None => doc,
    };
    match first_text(params, "localPortNumber") {
        Some(p) => {
            known.local_port = port_from(p);
        },
        None => {},
    }
    match first_text(params, "portNumber") {
        Some(p) => {
            known.remote_port = port_from(p);
        },
        None => {},
    }
    match first_text(params, "host") {
        Some(h) => {
            known.remote_host = Some(String::from_str(h));
        },
        None => {},
    }
}

/// Reads the launch parameters out of the documents of a command line.
pub fn read_launch_parameters(docs: &[Json]) -> (params: LaunchParameters)
    ensures
        params@ == launch_parameters(docs@, docs.len() as int),
{
    let mut known = LaunchParameters {
        instance_id: String::new(),
        local_port: 0,
        remote_port: 0,
        remote_host: None,
    };
    let mut i: usize = 0;
    while i < docs.len()
        invariant
            i <= docs.len(),
            known@ == launch_parameters(docs@, i as int),
        decreases docs.len() - i,
    {
        read_document(&mut known, &docs[i]);
        i += 1;
    }
    known
}

/// The handle of the session that launch parameters describe, not probed
/// yet; none where they name no local port.
pub fn tunnel_from_parameters(pid: u32, params: LaunchParameters) -> (r: Option<TunnelProcess>)
    ensures
        match r {
            Some(tp) => discovered(pid, params@) == Some(tp@),
            None => discovered(pid, params@) is None,
        },
{
    if params.local_port == 0 {
        return None;
    }
    let instance_name = match &params.remote_host {
        Some(h) => h.clone(),
        None => params.instance_id.clone(),
    };
    Some(
        TunnelProcess {
            pid,
            local_port: params.local_port,
            remote_port: params.remote_port,
            remote_host: params.remote_host,
            instance_id: params.instance_id,
            instance_name,
            port_open: false,
            latency_ms: None,
        },
    )
}

// ── Lines of the listing ─────────────────────────────────────────────────

/// The documents that the first `n` texts denote; a text that is not
/// well-formed JSON denotes none.
pub open spec fn documents_of(object_texts: Seq<Seq<char>>, n: int) -> Seq<Json>
    decreases n,
{
    if n <= 0 {
        Seq::empty()
    } else {
        match parsed_json(object_texts[n - 1]) {
            Some(doc) => documents_of(object_texts, n - 1).push(doc),
            None => documents_of(object_texts, n - 1),
        }
    }
}

/// What follows the agent's name on a line.
pub open spec fn after_agent(line: Seq<char>) -> Seq<char> {
    let at = first_occurrence(line, agent_name(), 0);
    if at < line.len() {
        line.subrange(at + agent_name().len(), line.len() as int)
    } else {
        Seq::empty()
    }
}

/// The session that a line with process id `pid` describes.
pub open spec fn tunnel_on_line(line: Seq<char>, pid: u32) -> Option<TunnelProcessView> {
    if first_occurrence(line, agent_name(), 0) < line.len() {
        let objects = objects_from(after_agent(line), 0);
        let docs = documents_of(objects, objects.len() as int);
        discovered(pid, launch_parameters(docs, docs.len() as int))
    } else {
        None
    }
}

/// The process id that a line starts with.
pub open spec fn pid_of_line(line: Seq<char>) -> Option<u32> {
    match parse_decimal(first_token(line), 0xffff_ffff) {
        Some(n) => Some(n as u32),
        None => None,
    }
}

/// The session that a line of the listing describes: the line names the
/// agent, starts with a process id, and states a local port.
pub open spec fn session_of_line(line: Seq<char>) -> Option<TunnelProcessView> {
    if is_substring(line, agent_name()) {
        match pid_of_line(line) {
            Some(pid) => tunnel_on_line(line, pid),
            None => None,
        }
    } else {
        None
    }
}

/// The sessions that the first `n` lines describe, in the order of the
/// lines.
pub open spec fn sessions_in(lines: Seq<Seq<char>>, n: int) -> Seq<TunnelProcessView>
    decreases n,
{
    if n <= 0 {
        Seq::empty()
    } else {
        match session_of_line(lines[n - 1]) {
            Some(tp) => sessions_in(lines, n - 1).push(tp),
            None => sessions_in(lines, n - 1),
        }
    }
}

/// The sessions that a listing describes.
pub open spec fn sessions_of(listing: Seq<char>) -> Seq<TunnelProcessView> {
    sessions_in(lines_from(listing, 0), lines_from(listing, 0).len() as int)
}

/// The views of a list of tunnel handles.
pub open spec fn tunnel_views(tunnels: Seq<TunnelProcess>) -> Seq<TunnelProcessView> {
    Seq::new(tunnels.len(), |i: int| tunnels[i]@)
}

fn parse_documents(object_texts: &Vec<String>) -> (docs: Vec<Json>)
    ensures
        docs@ == documents_of(texts(object_texts@), object_texts@.len() as int),
{
    let mut docs: Vec<Json> = Vec::new();
    let mut i: usize = 0;
    while i < object_texts.len()
        invariant
            i <= object_texts.len(),
            docs@ == documents_of(texts(object_texts@), i as int),
        decreases object_texts.len() - i,
    {
        match Json::parse(object_texts[i].as_str()) {
            Ok(doc) => {
                docs.push(doc);
            },
            Err(_) => {},
        }
        i += 1;
    }
    docs
}

/// The session that the characters of one line describe, under process id
/// `pid`.
pub fn parse_tunnel_chars(line: &Vec<char>, pid: u32) -> (r: Option<TunnelProcess>)
    ensures
        match r {
            Some(tp) => tunnel_on_line(line@, pid) == Some(tp@),
            None => tunnel_on_line(line@, pid) is None,
        },
{
    let name = chars_of("session-manager-plugin");
    let at = find_text(line, &name);
    if at >= line.len() {
        return None;
    }
    if name.len() > line.len() - at {
        // the name cannot start here
        assert(!crate::text::is_prefix_at(line@, at as int, name@));
        proof {
            lemma_first_occurrence(line@, name@, 0);
        }
        return None;
    }
    let rest = slice_of(line, at + name.len(), line.len());
    let object_texts = extract_json_objects(&rest);
    let docs = parse_documents(&object_texts);
    let params = read_launch_parameters(docs.as_slice());
    tunnel_from_parameters(pid, params)
}

/// What `first_occurrence` returns is an occurrence.
pub proof fn lemma_first_occurrence(hay: Seq<char>, needle: Seq<char>, from: int)
    requires
        0 <= from <= hay.len(),
    ensures
        from <= first_occurrence(hay, needle, from) <= hay.len(),
        first_occurrence(hay, needle, from) < hay.len() ==> crate::text::is_prefix_at(
            hay,
            first_occurrence(hay, needle, from),
            needle,
        ),
    decreases hay.len() - from,
{
    if from < hay.len() && !crate::text::is_prefix_at(hay, from, needle) {
        lemma_first_occurrence(hay, needle, from + 1);
    }
}

/// The session that one line of the listing describes, under process id
/// `pid`.
pub fn parse_tunnel_line(line: &str, pid: u32) -> (r: Option<TunnelProcess>)
    ensures
        match r {
            Some(tp) => tunnel_on_line(line@, pid) == Some(tp@),
            None => tunnel_on_line(line@, pid) is None,
        },
{
    let chars = chars_of(line);
    parse_tunnel_chars(&chars, pid)
}

fn session_on(line: &Vec<char>) -> (r: Option<TunnelProcess>)
    ensures
        match r {
            Some(tp) => session_of_line(line@) == Some(tp@),
            None => session_of_line(line@) is None,
        },
{
    let name = chars_of("session-manager-plugin");
    if !contains(line, &name) {
        return None;
    }
    assert(line@.subrange(0, line.len() as int) =~= line@);
    let start = skip_spaces(line, 0, line.len());
    let end = find_blank(line, start);
    match parse_bounded(line, start, end, 0xffff_ffff) {
        Some(pid) => parse_tunnel_chars(line, pid),
        None => None,
    }
}

/// The forwarding sessions that a listing of the process table shows, in
/// the order of its lines. They are not probed: `port_open` is unset and no
/// latency is known.
pub fn detect_tunnels(listing: &str) -> (found: Vec<TunnelProcess>)
    ensures
        tunnel_views(found@) == sessions_of(listing@),
{
    let s = chars_of(listing);
    let lines = lines_of(&s);
    let mut found: Vec<TunnelProcess> = Vec::new();
    assert(tunnel_views(found@) =~= Seq::<TunnelProcessView>::empty());
    let mut i: usize = 0;
    while i < lines.len()
        invariant
            i <= lines.len(),
            tunnel_views(found@) == sessions_in(buffers(lines@), i as int),
        decreases lines.len() - i,
    {
        assert(buffers(lines@)[i as int] == lines@[i as int]@);
        match session_on(&lines[i]) {
            Some(tp) => {
                let ghost before = tunnel_views(found@);
                found.push(tp);
                assert(tunnel_views(found@) =~= before.push(tp@));
            },
            None => {},
        }
        i += 1;
    }
    found
}

/// The handle once it is probed: whether the local port accepts
/// connections, and the latency of the remote answer where the port is open
/// and the remote end answered.
pub fn with_probe(tunnel: TunnelProcess, port_open: bool, latency_ms: Option<u64>) -> (r:
    TunnelProcess)
    ensures
        r@ == (TunnelProcessView {
            port_open,
            latency_ms: if port_open {
                latency_ms
            } else {
                None
            },
            ..tunnel@
        }),
{
    TunnelProcess {
        pid: tunnel.pid,
        local_port: tunnel.local_port,
        remote_port: tunnel.remote_port,
        remote_host: tunnel.remote_host,
        instance_id: tunnel.instance_id,
        instance_name: tunnel.instance_name,
        port_open,
        latency_ms: if port_open {
            latency_ms
        } else {
            None
        },
    }
}

} // verus!
