//! Who is calling, from where, and under which profile: what the control
//! plane's answers and the configuration files say of that.

use vstd::prelude::*;
use vstd::string::StringExecFns;
use crate::commands::{opt_str, profile_args, run_aws, strs};
use crate::error::{AppError, AppErrorView};
use crate::json::{member, member_in, text_at, text_of, Json};
use crate::models::texts;
use crate::text::{
    chars_of, find_char, index_of, matches_at, skip_spaces, skip_spaces_back, slice_of, string_from,
    trim, trimmed,
};

verus! {

/// A text, or `?` where there is none.
pub open spec fn text_or_unknown(t: Option<Seq<char>>) -> Seq<char> {
    match t {
        Some(s) => s,
        None => "?"@,
    }
}

/// The account and the identity that a `get-caller-identity` answer names.
pub open spec fn identity_lines(doc: Json) -> Seq<char> {
    "Account: "@ + text_or_unknown(text_at(doc, "Account"@)) + "\nARN:     "@ + text_or_unknown(
        text_at(doc, "Arn"@),
    )
}

pub fn get_caller_identity(doc: &Json) -> (lines: String)
    ensures
        lines@ == identity_lines(*doc),
{
    let mut lines = String::from_str("Account: ");
    match doc.text_member("Account") {
        Some(a) => {
            lines.append(a);
        },
        None => {
            lines.append("?");
        },
    }
    lines.append("\nARN:     ");
    match doc.text_member("Arn") {
        Some(a) => {
            lines.append(a);
        },
        None => {
            lines.append("?");
        },
    }
    assert(lines@ =~= identity_lines(*doc));
    lines
}

/// A text that is given and not empty.
pub open spec fn given(t: Option<Seq<char>>) -> bool {
    t matches Some(s) && s.len() > 0
}

/// The region that calls go to: the default region of the environment,
/// else the region of the environment, else the configured region with the
/// white space around it taken off, each unless it is empty; else
/// `us-east-1`.
pub open spec fn chosen_region(
    default_region: Option<Seq<char>>,
    region: Option<Seq<char>>,
    configured: Option<Seq<char>>,
) -> Seq<char> {
    if given(default_region) {
        default_region->0
    } else if given(region) {
        region->0
    } else if configured is Some && trimmed(configured->0).len() > 0 {
        trimmed(configured->0)
    } else {
        "us-east-1"@
    }
}

pub fn get_region(default_region: Option<&str>, region: Option<&str>, configured: Option<&str>) -> (r:
    String)
    ensures
        r@ == chosen_region(opt_str(default_region), opt_str(region), opt_str(configured)),
{
    match default_region {
        Some(d) => {
            if d.unicode_len() > 0 {
                return String::from_str(d);
            }
        },
        None => {},
    }
    match region {
        Some(d) => {
            if d.unicode_len() > 0 {
                return String::from_str(d);
            }
        },
        None => {},
    }
    match configured {
        Some(c) => {
            let t = trim(c);
            if t.as_str().unicode_len() > 0 {
                return t;
            }
        },
        None => {},
    }
    String::from_str("us-east-1")
}

/// The profile in use: the ambient one, or `default`.
pub fn get_profile(ambient: Option<&str>) -> (r: String)
    ensures
        r@ == (match ambient {
            Some(p) => p@,
            None => "default"@,
        }),
{
    match ambient {
        Some(p) => String::from_str(p),
        None => String::from_str("default"),
    }
}

// ── Profiles in the configuration files ──────────────────────────────────

/// `a` comes before `b` in the order of their characters.
pub open spec fn comes_before(a: Seq<char>, b: Seq<char>) -> bool
    decreases a.len(),
{
    if b.len() == 0 {
        false
    } else if a.len() == 0 {
        true
    } else if a[0] != b[0] {
        (a[0] as int) < (b[0] as int)
    } else {
        comes_before(a.drop_first(), b.drop_first())
    }
}

/// Every text comes before the next.
pub open spec fn ascending(list: Seq<Seq<char>>) -> bool {
    forall|i: int, j: int| 0 <= i < j < list.len() ==> comes_before(list[i], list[j])
}

/// The name that a line declares a profile under: what stands between the
/// brackets of `[name]` or `[profile name]`, trimmed. None for any other
/// line, and for an empty name.
pub open spec fn declared_profile(line: Seq<char>) -> Option<Seq<char>> {
    let t = trimmed(line);
    if t.len() >= 2 && t[0] == '[' && t.last() == ']' {
        let inner = t.subrange(1, t.len() - 1);
        let name = if crate::text::starts_with(inner, "profile "@) {
            trimmed(inner.subrange(8, inner.len() as int))
        } else {
            trimmed(inner)
        };
        if name.len() > 0 {
            Some(name)
        } else {
            None
        }
    } else {
        None
    }
}

/// The profiles that the lines of `content` at or after `from` declare.
pub open spec fn declared_from(content: Seq<char>, from: int) -> Set<Seq<char>>
    decreases content.len() - from,
{
    if from < 0 || from >= content.len() {
        Set::empty()
    } else {
        let end = index_of(content, from, '\n');
        let rest = if from <= end < content.len() {
            declared_from(content, end + 1)
        } else {
            Set::empty()
        };
        if from <= end <= content.len() {
            match declared_profile(content.subrange(from, end)) {
                Some(name) => rest.insert(name),
                None => rest,
            }
        } else {
            Set::empty()
        }
    }
}

/// The profiles that a file declares; none where the file is missing.
pub open spec fn declared_in(content: Option<Seq<char>>) -> Set<Seq<char>> {
    match content {
        Some(c) => declared_from(c, 0),
        None => Set::empty(),
    }
}

/// The texts of a list, as a set.
pub open spec fn as_set(list: Seq<Seq<char>>) -> Set<Seq<char>> {
    Set::new(|x: Seq<char>| list.contains(x))
}

fn before(a: &Vec<char>, b: &Vec<char>) -> (r: bool)
    ensures
        r == comes_before(a@, b@),
{
    let mut i: usize = 0;
    proof {
        assert(a@.subrange(0, a.len() as int) =~= a@);
        assert(b@.subrange(0, b.len() as int) =~= b@);
    }
    while i < a.len() && i < b.len() && a[i] == b[i]
        invariant
            i <= a.len(),
            i <= b.len(),
            comes_before(a@, b@) == comes_before(
                a@.subrange(i as int, a.len() as int),
                b@.subrange(i as int, b.len() as int),
            ),
        decreases a.len() - i,
    {
        proof {
            let x = a@.subrange(i as int, a.len() as int);
            let y = b@.subrange(i as int, b.len() as int);
            assert(x.drop_first() =~= a@.subrange(i + 1, a.len() as int));
            assert(y.drop_first() =~= b@.subrange(i + 1, b.len() as int));
        }
        i += 1;
    }
    if i >= b.len() {
        false
    } else if i >= a.len() {
        true
    } else {
        a[i] < b[i]
    }
}

fn precedes(list: &Vec<String>, i: usize, key: &Vec<char>) -> (r: bool)
    requires
        i < list.len(),
    ensures
        r == comes_before(texts(list@)[i as int], key@),
{
    let item = chars_of(list[i].as_str());
    before(&item, key)
}

fn follows(list: &Vec<String>, i: usize, key: &Vec<char>) -> (r: bool)
    requires
        i < list.len(),
    ensures
        r == comes_before(key@, texts(list@)[i as int]),
{
    let item = chars_of(list[i].as_str());
    before(key, &item)
}

/// Nothing comes before itself, and of two different texts one comes
/// before the other.
pub proof fn lemma_order_is_total(a: Seq<char>, b: Seq<char>)
    ensures
        !comes_before(a, a),
        a != b ==> comes_before(a, b) || comes_before(b, a),
        !(comes_before(a, b) && comes_before(b, a)),
    decreases a.len(),
{
    if a.len() > 0 {
        lemma_order_is_total(a.drop_first(), a.drop_first());
        if b.len() > 0 && a[0] == b[0] {
            lemma_order_is_total(a.drop_first(), b.drop_first());
            if a.drop_first() == b.drop_first() {
                assert(a.len() == b.len());
                assert forall|k: int| 0 <= k < a.len() implies a[k] == b[k] by {
                    if k > 0 {
                        assert(a.drop_first()[k - 1] == b.drop_first()[k - 1]);
                    }
                }
                assert(a =~= b);
            }
        }
    } else if b.len() == 0 {
        assert(a =~= b);
    }
}

/// What comes before a text comes before everything after it.
pub proof fn lemma_order_is_transitive(a: Seq<char>, b: Seq<char>, c: Seq<char>)
    requires
        comes_before(a, b),
        comes_before(b, c),
    ensures
        comes_before(a, c),
    decreases a.len(),
{
    if a.len() > 0 && b.len() > 0 && c.len() > 0 {
        if a[0] == b[0] && b[0] == c[0] {
            lemma_order_is_transitive(a.drop_first(), b.drop_first(), c.drop_first());
        }
    }
}

/// Puts a name into an ascending list, unless the list holds it already.
fn insert_sorted(list: &mut Vec<String>, name: String)
    requires
        ascending(texts(old(list)@)),
    ensures
        ascending(texts(final(list)@)),
        as_set(texts(final(list)@)) == as_set(texts(old(list)@)).insert(name@),
{
    let key = chars_of(name.as_str());
    let mut i: usize = 0;
    while i < list.len() && precedes(list, i, &key)
        invariant
            i <= list.len(),
            *list == *old(list),
            key@ == name@,
            forall|j: int| 0 <= j < i ==> comes_before(#[trigger] texts(list@)[j], key@),
        decreases list.len() - i,
    {
        i += 1;
    }
    let ghost before_texts = texts(list@);
    let found = i < list.len() && !follows(list, i, &key);
    if found {
        proof {
            lemma_order_is_total(key@, before_texts[i as int]);
            assert(before_texts[i as int] == key@);
            assert(before_texts.contains(key@));
            assert(as_set(before_texts).insert(name@) =~= as_set(before_texts));
        }
    } else {
        list.insert(i, name);
        proof {
            let after = texts(list@);
            assert(after =~= before_texts.insert(i as int, key@));
            assert forall|a: int, b: int| 0 <= a < b < after.len() implies comes_before(
                after[a],
                after[b],
            ) by {
                if b < i {
                } else if a > i {
                    assert(after[a] == before_texts[a - 1]);
                    assert(after[b] == before_texts[b - 1]);
                } else if a == i {
                    assert(after[b] == before_texts[b - 1]);
                    if b - 1 > i {
                        lemma_order_is_transitive(key@, before_texts[i as int], before_texts[b - 1]);
                    }
                } else if b == i {
                } else {
                    // a < i < b
                    assert(after[b] == before_texts[b - 1]);
                    lemma_order_is_transitive(after[a], key@, before_texts[i as int]);
                    if b - 1 > i {
                        lemma_order_is_transitive(
                            after[a],
                            before_texts[i as int],
                            before_texts[b - 1],
                        );
                    }
                }
            }
            assert forall|x: Seq<char>| as_set(after).contains(x) == as_set(before_texts).insert(
                key@,
            ).contains(x) by {
                if after.contains(x) {
                    let k = choose|k: int| 0 <= k < after.len() && after[k] == x;
                    if k < i {
                        assert(before_texts[k] == x);
                    } else if k > i {
                        assert(before_texts[k - 1] == x);
                    }
                }
                if before_texts.contains(x) {
                    let k = choose|k: int| 0 <= k < before_texts.len() && before_texts[k] == x;
                    if k < i {
                        assert(after[k] == x);
                    } else {
                        assert(after[k + 1] == x);
                    }
                }
                if x == key@ {
                    assert(after[i as int] == x);
                }
            }
            assert(as_set(after) =~= as_set(before_texts).insert(name@));
        }
    }
}

fn declared_on(line: &Vec<char>) -> (r: Option<String>)
    ensures
        match r {
            Some(name) => declared_profile(line@) == Some(name@),
            None => declared_profile(line@) is None,
        },
{
    assert(line@.subrange(0, line.len() as int) =~= line@);
    let start = skip_spaces(line, 0, line.len());
    let end = skip_spaces_back(line, start, line.len());
    let ghost t = trimmed(line@);
    assert(t == line@.subrange(start as int, end as int));
    if end - start < 2 || line[start] != '[' || line[end - 1] != ']' {
        return None;
    }
    let inner = slice_of(line, start + 1, end - 1);
    assert(inner@ =~= t.subrange(1, t.len() - 1));
    let prefix = chars_of("profile ");
    proof {
        reveal_strlit("profile ");
    }
    let from = if matches_at(&inner, 0, &prefix) {
        8
    } else {
        0
    };
    let rest = slice_of(&inner, from, inner.len());
    assert(rest@.subrange(0, rest.len() as int) =~= rest@);
    proof {
        if from == 0 {
            assert(rest@ =~= inner@);
        } else {
            assert(rest@ =~= inner@.subrange(8, inner@.len() as int));
        }
        assert(t.len() >= 2 && t[0] == '[' && t.last() == ']');
        assert("profile "@.len() == 8);
    }
    let a = skip_spaces(&rest, 0, rest.len());
    let b = skip_spaces_back(&rest, a, rest.len());
    if b > a {
        Some(string_from(&rest, a, b))
    } else {
        None
    }
}

fn add_declared(list: &mut Vec<String>, content: &str)
    requires
        ascending(texts(old(list)@)),
    ensures
        ascending(texts(final(list)@)),
        as_set(texts(final(list)@)) == as_set(texts(old(list)@)).union(
            declared_from(content@, 0),
        ),
{
    let s = chars_of(content);
    let mut from: usize = 0;
    assert(as_set(texts(list@)).union(declared_from(s@, 0)) =~= as_set(texts(old(list)@)).union(
        declared_from(s@, 0),
    ));
    while from < s.len()
        invariant
            from <= s.len(),
            ascending(texts(list@)),
            as_set(texts(list@)).union(declared_from(s@, from as int)) == as_set(
                texts(old(list)@),
            ).union(declared_from(s@, 0)),
        decreases s.len() - from,
    {
        let end = find_char(&s, from, '\n');
        let line = slice_of(&s, from, end);
        let ghost before_set = as_set(texts(list@));
        let ghost rest = if end < s.len() {
            declared_from(s@, end + 1)
        } else {
            Set::<Seq<char>>::empty()
        };
        match declared_on(&line) {
            Some(name) => {
                insert_sorted(list, name);
                assert(as_set(texts(list@)).union(rest) =~= before_set.union(rest.insert(name@)));
            },
            None => {},
        }
        if end < s.len() {
            from = end + 1;
        } else {
            from = s.len();
        }
    }
    assert(as_set(texts(list@)).union(declared_from(s@, from as int)) =~= as_set(texts(list@)));
}

/// The profiles that the configuration file and the credentials file
/// declare, together with `default`: each once, in ascending order.
pub fn list_profiles(config: Option<&str>, credentials: Option<&str>) -> (profiles: Vec<String>)
    ensures
        ascending(texts(profiles@)),
        as_set(texts(profiles@)) == declared_in(opt_str(config)).union(
            declared_in(opt_str(credentials)),
        ).insert("default"@),
{
    let mut profiles: Vec<String> = Vec::new();
    assert(as_set(texts(profiles@)) =~= Set::<Seq<char>>::empty());
    insert_sorted(&mut profiles, String::from_str("default"));
    match config {
        Some(c) => {
            add_declared(&mut profiles, c);
        },
        None => {},
    }
    match credentials {
        Some(c) => {
            add_declared(&mut profiles, c);
        },
        None => {},
    }
    assert(as_set(texts(profiles@)) =~= declared_in(opt_str(config)).union(
        declared_in(opt_str(credentials)),
    ).insert("default"@));
    profiles
}

// ── Asking a bastion to resolve a name ───────────────────────────────────

/// How long to wait before the first look at a command's result.
pub const LOOKUP_FIRST_WAIT_MS: u64 = 3000;

/// How long to wait between two looks.
pub const LOOKUP_POLL_WAIT_MS: u64 = 2000;

/// How often to look before giving up.
pub const LOOKUP_POLLS: u32 = 10;

/// The shell command that resolves `host` on a bastion.
pub open spec fn lookup_script(host: Seq<char>) -> Seq<char> {
    "commands=[\"dig +short "@ + host + " 2>/dev/null || host "@ + host
        + " 2>/dev/null | awk '/has address/{print $4}' || echo FAIL\"]"@
}

/// The command line that asks a bastion to resolve a host.
pub fn lookup_command(bastion_id: &str, host: &str, profile: Option<&str>) -> (line: Vec<String>)
    ensures
        texts(line@) == profile_args(opt_str(profile)) + seq![
            "ssm"@,
            "send-command"@,
            "--instance-ids"@,
            bastion_id@,
            "--document-name"@,
            "AWS-RunShellScript"@,
            "--parameters"@,
            lookup_script(host@),
        ] + seq!["--output"@, "json"@],
{
    let mut script = String::from_str("commands=[\"dig +short ");
    script.append(host);
    script.append(" 2>/dev/null || host ");
    script.append(host);
    script.append(" 2>/dev/null | awk '/has address/{print $4}' || echo FAIL\"]");
    assert(script@ =~= lookup_script(host@));
    let args = [
        "ssm",
        "send-command",
        "--instance-ids",
        bastion_id,
        "--document-name",
        "AWS-RunShellScript",
        "--parameters",
        script.as_str(),
    ];
    assert(strs(args@) =~= seq![
        "ssm"@,
        "send-command"@,
        "--instance-ids"@,
        bastion_id@,
        "--document-name"@,
        "AWS-RunShellScript"@,
        "--parameters"@,
        lookup_script(host@),
    ]);
    run_aws(&args, profile)
}

/// The id under which a sent command runs, from the answer to sending it.
pub fn sent_command_id(doc: &Json) -> (r: Result<String, AppError>)
    ensures
        match r {
            Ok(id) => text_of(member_in(member(*doc, "Command"@), "CommandId"@)) == Some(id@),
            Err(e) => text_of(member_in(member(*doc, "Command"@), "CommandId"@)) is None && e@
                == AppErrorView::UpstreamQueryFailure("send-command: no CommandId"@),
        },
{
    let id = match doc.get("Command") {
        Some(c) => c.text_member("CommandId"),
        None => None,
    };
    match id {
        Some(id) => Ok(String::from_str(id)),
        None => Err(
            AppError::UpstreamQueryFailure(String::from_str("send-command: no CommandId")),
        ),
    }
}

/// The command line that looks at the result of a sent command.
pub fn invocation_command(command_id: &str, bastion_id: &str, profile: Option<&str>) -> (line: Vec<
    String,
>)
    ensures
        texts(line@) == profile_args(opt_str(profile)) + seq![
            "ssm"@,
            "get-command-invocation"@,
            "--command-id"@,
            command_id@,
            "--instance-id"@,
            bastion_id@,
        ] + seq!["--output"@, "json"@],
{
    let args = [
        "ssm",
        "get-command-invocation",
        "--command-id",
        command_id,
        "--instance-id",
        bastion_id,
    ];
    assert(strs(args@) =~= seq![
        "ssm"@,
        "get-command-invocation"@,
        "--command-id"@,
        command_id@,
        "--instance-id"@,
        bastion_id@,
    ]);
    run_aws(&args, profile)
}

/// What a command has printed, once it has ended: its trimmed output where
/// its status is `Success` or `Failed`, nothing while it runs.
pub open spec fn finished_output(doc: Json) -> Option<Seq<char>> {
    let status = text_at(doc, "Status"@);
    if status == Some("Success"@) || status == Some("Failed"@) {
        Some(
            trimmed(
                match text_at(doc, "StandardOutputContent"@) {
                    Some(out) => out,
                    None => Seq::empty(),
                },
            ),
        )
    } else {
        None
    }
}

pub fn invocation_output(doc: &Json) -> (r: Option<String>)
    ensures
        crate::models::opt_text(r) == finished_output(*doc),
{
    let ended = match doc.text_member("Status") {
        Some(s) => crate::text::str_eq(s, "Success") || crate::text::str_eq(s, "Failed"),
        None => false,
    };
    if ended {
        match doc.text_member("StandardOutputContent") {
            Some(out) => Some(trim(out)),
            None => {
                let r = trim("");
                proof {
                    reveal_strlit("");
                    assert(""@ =~= Seq::<char>::empty());
                }
                Some(r)
            },
        }
    } else {
        None
    }
}

/// The failure of a lookup that did not end in time.
pub fn lookup_timed_out() -> (e: AppError)
    ensures
        e@ == AppErrorView::UpstreamQueryFailure("SSM command timed out after 23 s"@),
{
    AppError::UpstreamQueryFailure(String::from_str("SSM command timed out after 23 s"))
}

} // verus!
