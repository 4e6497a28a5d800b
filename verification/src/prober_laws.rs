//! What holds of the prober's reading of launch parameters.

use vstd::prelude::*;
use crate::commands::forwarding_parameters;
use crate::decimal::{decimal_digits, lemma_decimal_round_trip};
use crate::json::{text_at, Json};
use crate::prober::{
    closing, discovered, first_text_at, launch_parameters, objects_from, parameters_of,
    port_of_text,
};

verus! {

/// The document states these launch parameters, under `Parameters` or
/// inline, with the ports written in decimal.
pub open spec fn states_parameters(
    doc: Json,
    target: Seq<char>,
    host: Option<Seq<char>>,
    local_port: u16,
    remote_port: u16,
) -> bool {
    &&& text_at(doc, "Target"@) == Some(target)
    &&& first_text_at(parameters_of(doc), "localPortNumber"@) == Some(
        decimal_digits(local_port as nat),
    )
    &&& first_text_at(parameters_of(doc), "portNumber"@) == Some(decimal_digits(remote_port as nat))
    &&& first_text_at(parameters_of(doc), "host"@) == host
}

/// A port written in decimal is read back as the same port.
pub proof fn law_port_reads_back(port: u16)
    ensures
        port_of_text(decimal_digits(port as nat)) == port,
{
    lemma_decimal_round_trip(port as nat, 65535);
}

/// Where the last document of an agent's command line states the launch
/// parameters of a session with a local port other than 0, the session
/// that is discovered under a process id has that process id, the same
/// local port and the same remote port, and the instance that hosts it. Its
/// remote host is the one stated, or else the one that an earlier document
/// stated.
pub proof fn law_launch_parameters_read_back(
    pid: u32,
    docs: Seq<Json>,
    target: Seq<char>,
    host: Option<Seq<char>>,
    local_port: u16,
    remote_port: u16,
)
    requires
        docs.len() > 0,
        local_port != 0,
        states_parameters(docs.last(), target, host, local_port, remote_port),
    ensures
        discovered(pid, launch_parameters(docs, docs.len() as int)) matches Some(tp) && {
            &&& tp.pid == pid
            &&& tp.local_port == local_port
            &&& tp.remote_port == remote_port
            &&& tp.instance_id == target
            &&& host is Some ==> tp.remote_host == host
            &&& host is None ==> tp.remote_host == launch_parameters(
                docs,
                docs.len() - 1,
            ).remote_host
            &&& !tp.port_open
            &&& tp.latency_ms is None
        },
{
    law_port_reads_back(local_port);
    law_port_reads_back(remote_port);
}

/// The text holds no brace.
pub open spec fn brace_free(s: Seq<char>) -> bool {
    forall|i: int| 0 <= i < s.len() ==> #[trigger] s[i] != '{' && s[i] != '}'
}

/// A number's decimal notation holds no brace.
pub proof fn lemma_digits_are_brace_free(n: nat)
    ensures
        brace_free(decimal_digits(n)),
    decreases n,
{
    if n >= 10 {
        lemma_digits_are_brace_free(n / 10);
    }
}

/// From a position inside an object whose rest holds no brace but the one
/// that ends the text, the object closes at the end of the text.
pub proof fn lemma_closes_at_the_end(s: Seq<char>, i: int)
    requires
        1 <= i < s.len(),
        s.last() == '}',
        forall|j: int| i <= j < s.len() - 1 ==> #[trigger] s[j] != '{' && s[j] != '}',
    ensures
        closing(s, i, 1) == s.len() - 1,
    decreases s.len() - i,
{
    if i < s.len() - 1 {
        lemma_closes_at_the_end(s, i + 1);
    }
}

/// A text that is one pair of braces around a text without braces is cut
/// out as one object: itself.
pub proof fn lemma_one_object(body: Seq<char>)
    requires
        brace_free(body),
    ensures
        objects_from(seq!['{'] + body + seq!['}'], 0) == seq![seq!['{'] + body + seq!['}']],
{
    let t = seq!['{'] + body + seq!['}'];
    assert(t.len() == body.len() + 2);
    assert(t[0] == '{');
    assert(t.last() == '}');
    assert forall|j: int| 1 <= j < t.len() - 1 implies #[trigger] t[j] != '{' && t[j] != '}' by {
        assert(t[j] == body[j - 1]);
    }
    lemma_closes_at_the_end(t, 1);
    let c = closing(t, 1, 1);
    assert(c == t.len() - 1);
    assert(t.subrange(0, c + 1) =~= t);
    assert(objects_from(t, c + 1) =~= Seq::<Seq<char>>::empty());
    assert(seq![t] + Seq::<Seq<char>>::empty() =~= seq![t]);
}

/// What stands between the braces of the launch parameters.
pub open spec fn parameters_body(host: Option<Seq<char>>, local_port: u16, remote_port: u16) -> Seq<
    char,
> {
    let ports = "\"portNumber\":[\""@ + decimal_digits(remote_port as nat)
        + "\"],\"localPortNumber\":[\""@ + decimal_digits(local_port as nat) + "\"]"@;
    match host {
        Some(h) => "\"host\":[\""@ + h + "\"],"@ + ports,
        None => ports,
    }
}

/// The launch parameters that the engine writes for a host without braces
/// are one brace-balanced run: whatever cuts JSON objects out of a command
/// line cuts them out whole, and nothing else.
pub proof fn law_parameters_are_one_object(
    host: Option<Seq<char>>,
    local_port: u16,
    remote_port: u16,
)
    requires
        host matches Some(h) ==> brace_free(h),
    ensures
        objects_from(forwarding_parameters(host, local_port, remote_port), 0) == seq![
            forwarding_parameters(host, local_port, remote_port),
        ],
{
    reveal_strlit("\"portNumber\":[\"");
    reveal_strlit("\"],\"localPortNumber\":[\"");
    reveal_strlit("\"]");
    reveal_strlit("\"]}");
    reveal_strlit("\"host\":[\"");
    reveal_strlit("{\"host\":[\"");
    reveal_strlit("\"],");
    reveal_strlit("{");
    lemma_digits_are_brace_free(remote_port as nat);
    lemma_digits_are_brace_free(local_port as nat);
    let body = parameters_body(host, local_port, remote_port);
    let whole = forwarding_parameters(host, local_port, remote_port);
    assert(brace_free("\"portNumber\":[\""@));
    assert(brace_free("\"],\"localPortNumber\":[\""@));
    assert(brace_free("\"]"@));
    assert(brace_free("\"host\":[\""@));
    assert(brace_free("\"],"@));
    assert(brace_free(body));
    assert("\"]}"@ =~= "\"]"@ + seq!['}']);
    assert("{\"host\":[\""@ =~= seq!['{'] + "\"host\":[\""@);
    assert("{"@ =~= seq!['{']);
    assert(whole =~= seq!['{'] + body + seq!['}']);
    lemma_one_object(body);
}

} // verus!
