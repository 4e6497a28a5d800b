//! The report that traces how a host resolves: what it resolves to here,
//! which instances own those addresses, and what a bastion makes of it.

use vstd::prelude::*;
use vstd::string::StringExecFns;
use crate::error::{message_of, AppError};
use crate::models::{name_of_state, ssm_status_label, Address, BastionInfo, Instance};
use crate::resolver::{has_address, host_of, strip_url_to_host};
use crate::text::{
    buffers, chars_of, lines_from, lines_of, skip_spaces, skip_spaces_back, str_eq, string_from,
    trimmed,
};

verus! {

/// The first `n` addresses, separated by a comma and a blank.
pub open spec fn joined(addrs: Seq<Address>, n: int) -> Seq<char>
    decreases n,
{
    if n <= 0 {
        Seq::empty()
    } else if n == 1 {
        addrs[0].text@
    } else {
        joined(addrs, n - 1) + ", "@ + addrs[n - 1].text@
    }
}

/// What the report says of the local resolution.
pub open spec fn local_line(addrs: Seq<Address>) -> Seq<char> {
    if addrs.len() > 0 {
        "  DNS (local): "@ + joined(addrs, addrs.len() as int) + "\n"@
    } else {
        "  DNS (local): not resolvable \u{2014} likely an internal hostname\n"@
    }
}

/// What the report says of an instance that owns a resolved address.
pub open spec fn match_lines(inst: Instance) -> Seq<char> {
    "\n  EC2 match: "@ + inst.name@ + " ("@ + inst.id@ + ")\n    type="@ + inst.instance_type@
        + " state="@ + name_of_state(inst.state@) + " ssm="@ + ssm_status_label(inst.ssm_status)
        + "\n"@
}

/// What the report says of the owners of one address among the first `n`
/// instances.
pub open spec fn owner_lines(instances: Seq<Instance>, addr: Seq<char>, n: int) -> Seq<char>
    decreases n,
{
    if n <= 0 {
        Seq::empty()
    } else if has_address(instances[n - 1], addr) {
        owner_lines(instances, addr, n - 1) + match_lines(instances[n - 1])
    } else {
        owner_lines(instances, addr, n - 1)
    }
}

/// What the report says of the owners of the first `n` addresses.
pub open spec fn direct_lines(addrs: Seq<Address>, instances: Seq<Instance>, n: int) -> Seq<char>
    decreases n,
{
    if n <= 0 {
        Seq::empty()
    } else {
        direct_lines(addrs, instances, n - 1) + owner_lines(
            instances,
            addrs[n - 1].text@,
            instances.len() as int,
        )
    }
}

/// Some instance owns some resolved address.
pub open spec fn any_owner(addrs: Seq<Address>, instances: Seq<Instance>) -> bool {
    exists|a: int, i: int|
        0 <= a < addrs.len() && 0 <= i < instances.len() && has_address(
            #[trigger] instances[i],
            #[trigger] addrs[a].text@,
        )
}

/// Index of the first online bastion at or after `from`, or the length.
pub open spec fn first_online(bastions: Seq<BastionInfo>, from: int) -> int
    decreases bastions.len() - from,
{
    if from < 0 || from >= bastions.len() {
        bastions.len() as int
    } else if bastions[from].ssm_online {
        from
    } else {
        first_online(bastions, from + 1)
    }
}

/// The bastion that is asked to resolve the host: the first online one,
/// where no instance owns a resolved address.
pub fn lookup_bastion<'a>(
    addrs: &[Address],
    instances: &[Instance],
    bastions: &'a [BastionInfo],
) -> (r: Option<&'a BastionInfo>)
    ensures
        match r {
            Some(b) => !any_owner(addrs@, instances@) && first_online(bastions@, 0)
                < bastions.len() && *b == bastions@[first_online(bastions@, 0)],
            None => any_owner(addrs@, instances@) || first_online(bastions@, 0) == bastions.len(),
        },
{
    if owned(addrs, instances) {
        return None;
    }
    let mut i: usize = 0;
    while i < bastions.len()
        invariant
            i <= bastions.len(),
            !any_owner(addrs@, instances@),
            first_online(bastions@, 0) == first_online(bastions@, i as int),
        decreases bastions.len() - i,
    {
        if bastions[i].ssm_online {
            return Some(&bastions[i]);
        }
        i += 1;
    }
    None
}

fn owns(inst: &Instance, addr: &String) -> (b: bool)
    ensures
        b == has_address(*inst, addr@),
{
    let private = match &inst.private_ip {
        Some(ip) => *ip == *addr,
        None => false,
    };
    let public = match &inst.public_ip {
        Some(ip) => *ip == *addr,
        None => false,
    };
    private || public
}

fn owned(addrs: &[Address], instances: &[Instance]) -> (b: bool)
    ensures
        b == any_owner(addrs@, instances@),
{
    let mut a: usize = 0;
    while a < addrs.len()
        invariant
            a <= addrs.len(),
            forall|x: int, i: int|
                0 <= x < a && 0 <= i < instances@.len() ==> !has_address(
                    #[trigger] instances@[i],
                    #[trigger] addrs@[x].text@,
                ),
        decreases addrs.len() - a,
    {
        let mut i: usize = 0;
        while i < instances.len()
            invariant
                i <= instances.len(),
                a < addrs.len(),
                forall|k: int|
                    0 <= k < i ==> !has_address(#[trigger] instances@[k], addrs@[a as int].text@),
            decreases instances.len() - i,
        {
            if owns(&instances[i], &addrs[a].text) {
                return true;
            }
            i += 1;
        }
        a += 1;
    }
    false
}

/// The instance's private address is `addr`.
pub open spec fn is_private(inst: Instance, addr: Seq<char>) -> bool {
    inst.private_ip matches Some(ip) && ip@ == addr
}

/// Index of the first instance at or after `from` whose private address is
/// `addr`, or the length.
pub open spec fn first_private(instances: Seq<Instance>, addr: Seq<char>, from: int) -> int
    decreases instances.len() - from,
{
    if from < 0 || from >= instances.len() {
        instances.len() as int
    } else if is_private(instances[from], addr) {
        from
    } else {
        first_private(instances, addr, from + 1)
    }
}

/// What the report says of one line of a bastion's answer: the instance
/// whose private address the line names, if there is one.
pub open spec fn remote_match_line(instances: Seq<Instance>, line: Seq<char>) -> Seq<char> {
    let i = first_private(instances, trimmed(line), 0);
    if 0 <= i < instances.len() {
        "  EC2 match: "@ + instances[i].name@ + " ("@ + instances[i].id@
            + ") \u{2014} reachable via bastion\n"@
    } else {
        Seq::empty()
    }
}

/// The first line of a text; the empty text has none.
pub open spec fn first_line(text: Seq<char>) -> Seq<char> {
    let lines = lines_from(text, 0);
    if lines.len() > 0 {
        lines[0]
    } else {
        Seq::empty()
    }
}

/// What the report says of the first `n` lines of a bastion's answer.
pub open spec fn remote_match_lines(instances: Seq<Instance>, lines: Seq<Seq<char>>, n: int)
    -> Seq<char>
    decreases n,
{
    if n <= 0 {
        Seq::empty()
    } else {
        remote_match_lines(instances, lines, n - 1) + remote_match_line(instances, lines[n - 1])
    }
}

/// What the report says of a bastion's answer.
pub open spec fn lookup_lines(
    host: Seq<char>,
    instances: Seq<Instance>,
    lookup: Result<String, AppError>,
) -> Seq<char> {
    match lookup {
        Ok(answer) => if answer@.len() > 0 && answer@ != "FAIL"@ {
            "  DNS (from bastion): "@ + first_line(answer@) + "\n"@ + remote_match_lines(
                instances,
                lines_from(answer@, 0),
                lines_from(answer@, 0).len() as int,
            )
        } else {
            "  Bastion could not resolve "@ + host + " either (not in VPC DNS?)\n"@
        },
        Err(e) => "  Bastion resolution failed: "@ + message_of(e@) + "\n"@,
    }
}

/// The online ones among the first `n` bastions, one line each.
pub open spec fn bastion_lines(bastions: Seq<BastionInfo>, n: int) -> Seq<char>
    decreases n,
{
    if n <= 0 {
        Seq::empty()
    } else if bastions[n - 1].ssm_online {
        bastion_lines(bastions, n - 1) + "    \u{25cf} "@ + bastions[n - 1].name@ + " ("@
            + bastions[n - 1].id@ + ")\n"@
    } else {
        bastion_lines(bastions, n - 1)
    }
}

/// What the report says where no instance owns a resolved address.
pub open spec fn relay_lines(
    input: Seq<char>,
    instances: Seq<Instance>,
    bastions: Seq<BastionInfo>,
    lookup: Result<String, AppError>,
) -> Seq<char> {
    let b = first_online(bastions, 0);
    if b >= bastions.len() {
        "\n  No SSM-online bastions found to try remote resolution.\n"@
    } else {
        "\n  No direct EC2 IP match.\n\n  Trying resolution via bastion: "@ + bastions[b].name@
            + " ("@ + bastions[b].id@ + ")\n"@ + lookup_lines(host_of(input), instances, lookup)
            + "\n  Available SSM-online bastions:\n"@ + bastion_lines(
            bastions,
            bastions.len() as int,
        ) + "\n  Tunnel suggestion: awsx2 tunnel-url "@ + input + " <local_port>\n"@
    }
}

/// The report on an input.
pub open spec fn report_text(
    input: Seq<char>,
    addrs: Seq<Address>,
    instances: Seq<Instance>,
    bastions: Seq<BastionInfo>,
    lookup: Result<String, AppError>,
) -> Seq<char> {
    "Resolving: "@ + host_of(input) + "\n"@ + local_line(addrs) + direct_lines(
        addrs,
        instances,
        addrs.len() as int,
    ) + (if any_owner(addrs, instances) {
        Seq::<char>::empty()
    } else {
        relay_lines(input, instances, bastions, lookup)
    })
}

fn push_local_line(out: &mut String, addrs: &[Address])
    ensures
        final(out)@ == old(out)@ + local_line(addrs@),
{
    if addrs.len() == 0 {
        out.append("  DNS (local): not resolvable \u{2014} likely an internal hostname\n");
        return ;
    }
    out.append("  DNS (local): ");
    let mut i: usize = 0;
    assert(out@ =~= old(out)@ + "  DNS (local): "@ + joined(addrs@, 0));
    while i < addrs.len()
        invariant
            i <= addrs.len(),
            out@ == old(out)@ + "  DNS (local): "@ + joined(addrs@, i as int),
        decreases addrs.len() - i,
    {
        if i > 0 {
            out.append(", ");
        }
        out.append(addrs[i].text.as_str());
        assert(out@ =~= old(out)@ + "  DNS (local): "@ + joined(addrs@, i + 1));
        i += 1;
    }
    out.append("\n");
    assert(out@ =~= old(out)@ + local_line(addrs@));
}

fn push_match_lines(out: &mut String, inst: &Instance)
    ensures
        final(out)@ == old(out)@ + match_lines(*inst),
{
    out.append("\n  EC2 match: ");
    out.append(inst.name.as_str());
    out.append(" (");
    out.append(inst.id.as_str());
    out.append(")\n    type=");
    out.append(inst.instance_type.as_str());
    out.append(" state=");
    out.append(inst.state.as_str());
    out.append(" ssm=");
    out.append(inst.ssm_status.as_str());
    out.append("\n");
    assert(out@ =~= old(out)@ + match_lines(*inst));
}

fn push_direct_lines(out: &mut String, addrs: &[Address], instances: &[Instance])
    ensures
        final(out)@ == old(out)@ + direct_lines(addrs@, instances@, addrs@.len() as int),
{
    let mut a: usize = 0;
    assert(out@ =~= old(out)@ + direct_lines(addrs@, instances@, 0));
    while a < addrs.len()
        invariant
            a <= addrs.len(),
            out@ == old(out)@ + direct_lines(addrs@, instances@, a as int),
        decreases addrs.len() - a,
    {
        let mut i: usize = 0;
        let ghost start = out@;
        assert(out@ =~= start + owner_lines(instances@, addrs@[a as int].text@, 0));
        while i < instances.len()
            invariant
                i <= instances.len(),
                a < addrs.len(),
                out@ == start + owner_lines(instances@, addrs@[a as int].text@, i as int),
            decreases instances.len() - i,
        {
            if owns(&instances[i], &addrs[a].text) {
                push_match_lines(out, &instances[i]);
            }
            assert(out@ =~= start + owner_lines(instances@, addrs@[a as int].text@, i + 1));
            i += 1;
        }
        assert(out@ =~= old(out)@ + direct_lines(addrs@, instances@, a + 1));
        a += 1;
    }
}

fn push_remote_match(out: &mut String, instances: &[Instance], line: &Vec<char>)
    ensures
        final(out)@ == old(out)@ + remote_match_line(instances@, line@),
{
    assert(line@.subrange(0, line.len() as int) =~= line@);
    let a = skip_spaces(line, 0, line.len());
    let b = skip_spaces_back(line, a, line.len());
    let wanted = string_from(line, a, b);
    let mut i: usize = 0;
    while i < instances.len()
        invariant
            i <= instances.len(),
            wanted@ == trimmed(line@),
            out@ == old(out)@,
            first_private(instances@, wanted@, 0) == first_private(instances@, wanted@, i as int),
        decreases instances.len() - i,
    {
        let hit = match &instances[i].private_ip {
            Some(ip) => *ip == wanted,
            None => false,
        };
        if hit {
            out.append("  EC2 match: ");
            out.append(instances[i].name.as_str());
            out.append(" (");
            out.append(instances[i].id.as_str());
            out.append(") \u{2014} reachable via bastion\n");
            assert(out@ =~= old(out)@ + remote_match_line(instances@, line@));
            return ;
        }
        i += 1;
    }
    assert(out@ =~= old(out)@ + remote_match_line(instances@, line@));
}

fn push_lookup_lines(out: &mut String, host: &str, instances: &[Instance], lookup: &Result<
    String,
    AppError,
>)
    ensures
        final(out)@ == old(out)@ + lookup_lines(host@, instances@, *lookup),
{
    match lookup {
        Ok(answer) => {
            let s = chars_of(answer.as_str());
            if s.len() > 0 && !str_eq(answer.as_str(), "FAIL") {
                let lines = lines_of(&s);
                out.append("  DNS (from bastion): ");
                if lines.len() > 0 {
                    let first = string_from(&lines[0], 0, lines[0].len());
                    assert(lines@[0]@.subrange(0, lines@[0]@.len() as int) =~= lines@[0]@);
                    assert(buffers(lines@)[0] == lines@[0]@);
                    out.append(first.as_str());
                }
                out.append("\n");
                let ghost start = out@;
                assert(start =~= old(out)@ + "  DNS (from bastion): "@ + first_line(answer@)
                    + "\n"@);
                let mut i: usize = 0;
                assert(out@ =~= start + remote_match_lines(instances@, buffers(lines@), 0));
                while i < lines.len()
                    invariant
                        i <= lines.len(),
                        out@ == start + remote_match_lines(instances@, buffers(lines@), i as int),
                    decreases lines.len() - i,
                {
                    assert(buffers(lines@)[i as int] == lines@[i as int]@);
                    push_remote_match(out, instances, &lines[i]);
                    assert(out@ =~= start + remote_match_lines(
                        instances@,
                        buffers(lines@),
                        i + 1,
                    ));
                    i += 1;
                }
                assert(out@ =~= old(out)@ + lookup_lines(host@, instances@, *lookup));
            } else {
                out.append("  Bastion could not resolve ");
                out.append(host);
                out.append(" either (not in VPC DNS?)\n");
                assert(out@ =~= old(out)@ + lookup_lines(host@, instances@, *lookup));
            }
        },
        Err(e) => {
            out.append("  Bastion resolution failed: ");
            let message = e.message();
            out.append(message.as_str());
            out.append("\n");
            assert(out@ =~= old(out)@ + lookup_lines(host@, instances@, *lookup));
        },
    }
}

fn push_bastion_lines(out: &mut String, bastions: &[BastionInfo])
    ensures
        final(out)@ == old(out)@ + bastion_lines(bastions@, bastions@.len() as int),
{
    let mut i: usize = 0;
    assert(out@ =~= old(out)@ + bastion_lines(bastions@, 0));
    while i < bastions.len()
        invariant
            i <= bastions.len(),
            out@ == old(out)@ + bastion_lines(bastions@, i as int),
        decreases bastions.len() - i,
    {
        if bastions[i].ssm_online {
            out.append("    \u{25cf} ");
            out.append(bastions[i].name.as_str());
            out.append(" (");
            out.append(bastions[i].id.as_str());
            out.append(")\n");
        }
        assert(out@ =~= old(out)@ + bastion_lines(bastions@, i + 1));
        i += 1;
    }
}

/// Writes the report on an input: what it resolves to locally, the
/// instances that own those addresses, and, where none does, what the
/// first online bastion answered when it was asked, the online bastions,
/// and how a tunnel could be opened. `lookup` is what that bastion
/// answered; it is not looked at where it was not asked.
pub fn resolve_dns_report(
    input: &str,
    addrs: &[Address],
    instances: &[Instance],
    bastions: &[BastionInfo],
    lookup: &Result<String, AppError>,
) -> (report: String)
    ensures
        report@ == report_text(input@, addrs@, instances@, bastions@, *lookup),
{
    let host = strip_url_to_host(input);
    let mut out = String::from_str("Resolving: ");
    out.append(host.as_str());
    out.append("\n");
    push_local_line(&mut out, addrs);
    push_direct_lines(&mut out, addrs, instances);
    let ghost head = out@;
    assert(head =~= "Resolving: "@ + host_of(input@) + "\n"@ + local_line(addrs@) + direct_lines(
        addrs@,
        instances@,
        addrs@.len() as int,
    ));
    match lookup_bastion(addrs, instances, bastions) {
        Some(bastion) => {
            out.append("\n  No direct EC2 IP match.\n\n  Trying resolution via bastion: ");
            out.append(bastion.name.as_str());
            out.append(" (");
            out.append(bastion.id.as_str());
            out.append(")\n");
            push_lookup_lines(&mut out, host.as_str(), instances, lookup);
            out.append("\n  Available SSM-online bastions:\n");
            push_bastion_lines(&mut out, bastions);
            out.append("\n  Tunnel suggestion: awsx2 tunnel-url ");
            out.append(input);
            out.append(" <local_port>\n");
            assert(out@ =~= head + relay_lines(input@, instances@, bastions@, *lookup));
        },
        None => {
            if !owned(addrs, instances) {
                out.append("\n  No SSM-online bastions found to try remote resolution.\n");
                assert(out@ =~= head + relay_lines(input@, instances@, bastions@, *lookup));
            } else {
                assert(out@ =~= head + Seq::<char>::empty());
            }
        },
    }
    out
}

} // verus!
