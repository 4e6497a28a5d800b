//! Reading the control plane's answers: from a JSON document to the records
//! that the resolver works on. A member that is missing or of another kind
//! is passed over, never an error.

use vstd::prelude::*;
use vstd::string::StringExecFns;
use crate::json::{
    items_at, low16, low16_of_i64, low16_of_u64, member, member_in, signed_of, text_at,
    text_of, text_or_empty, unsigned_of, Json,
};
use crate::models::{
    opt_text, texts, LoadBalancer, LoadBalancerTarget, SecurityGroupRule, SecurityGroupRuleView,
    TargetGroup,
};
use crate::resolver::{holds_text, push_unique};
use crate::text::{chars_of, matches_at, starts_with};

verus! {

// ── Load balancers ───────────────────────────────────────────────────────

/// Public name and identity of each load balancer.
pub open spec fn balancer_keys(lbs: Seq<LoadBalancer>) -> Seq<(Seq<char>, Option<Seq<char>>)> {
    Seq::new(lbs.len(), |i: int| (lbs[i].dns_name@, opt_text(lbs[i].arn)))
}

/// Public name and identity of those among the first `n` descriptions that
/// have a public name.
pub open spec fn named_balancers(items: Seq<Json>, n: int) -> Seq<(Seq<char>, Option<Seq<char>>)>
    decreases n,
{
    if n <= 0 {
        Seq::empty()
    } else {
        let dns = text_or_empty(text_at(items[n - 1], "DNSName"@));
        if dns.len() == 0 {
            named_balancers(items, n - 1)
        } else {
            named_balancers(items, n - 1).push((dns, text_at(items[n - 1], "LoadBalancerArn"@)))
        }
    }
}

/// The load balancers of a `describe-load-balancers` answer that have a
/// public name, in order. Their addresses and target groups are left empty.
pub fn parse_load_balancers(doc: &Json) -> (found: Vec<LoadBalancer>)
    ensures
        balancer_keys(found@) == named_balancers(
            items_at(*doc, "LoadBalancers"@),
            items_at(*doc, "LoadBalancers"@).len() as int,
        ),
        forall|i: int|
            0 <= i < found@.len() ==> (#[trigger] found@[i]).addresses@.len() == 0
                && found@[i].target_groups@.len() == 0,
{
    let mut found: Vec<LoadBalancer> = Vec::new();
    assert(balancer_keys(found@) =~= Seq::<(Seq<char>, Option<Seq<char>>)>::empty());
    let items = match doc.array_member("LoadBalancers") {
        Some(items) => items,
        None => {
            return found;
        },
    };
    let mut i: usize = 0;
    while i < items.len()
        invariant
            i <= items.len(),
            balancer_keys(found@) == named_balancers(items@, i as int),
            forall|j: int|
                0 <= j < found@.len() ==> (#[trigger] found@[j]).addresses@.len() == 0
                    && found@[j].target_groups@.len() == 0,
        decreases items.len() - i,
    {
        match items[i].text_member("DNSName") {
            Some(dns) => {
                if dns.unicode_len() > 0 {
                    let arn = match items[i].text_member("LoadBalancerArn") {
                        Some(a) => Some(String::from_str(a)),
                        None => None,
                    };
                    let ghost before = balancer_keys(found@);
                    let lb = LoadBalancer {
                        arn,
                        dns_name: String::from_str(dns),
                        addresses: Vec::new(),
                        target_groups: Vec::new(),
                    };
                    found.push(lb);
                    assert(balancer_keys(found@) =~= before.push((dns@, opt_text(lb.arn))));
                }
            },
            None => {},
        }
        i += 1;
    }
    found
}

// ── Target groups and target health ──────────────────────────────────────

/// A port number as the answers carry it: the low 16 bits of an unsigned
/// number, or `default` where there is no such number.
pub open spec fn port_or(number: Option<u64>, default: u16) -> u16 {
    match number {
        Some(n) => low16(n as int),
        None => default,
    }
}

/// Identity and port of each target group.
pub open spec fn group_keys(groups: Seq<TargetGroup>) -> Seq<(Seq<char>, u16)> {
    Seq::new(groups.len(), |i: int| (groups[i].arn@, groups[i].port))
}

/// Identity and port of those among the first `n` descriptions that have an
/// identity.
pub open spec fn identified_groups(items: Seq<Json>, n: int) -> Seq<(Seq<char>, u16)>
    decreases n,
{
    if n <= 0 {
        Seq::empty()
    } else {
        match text_at(items[n - 1], "TargetGroupArn"@) {
            Some(arn) => identified_groups(items, n - 1).push(
                (arn, port_or(unsigned_of(member(items[n - 1], "Port"@)), 0)),
            ),
            None => identified_groups(items, n - 1),
        }
    }
}

fn port_member(doc: &Json, key: &str, default: u16) -> (port: u16)
    ensures
        port == port_or(unsigned_of(member(*doc, key@)), default),
{
    match doc.get(key) {
        Some(v) => match v.as_u64() {
            Some(n) => low16_of_u64(n),
            None => default,
        },
        None => default,
    }
}

/// The target groups of a `describe-target-groups` answer that have an
/// identity, in order. Their targets are left empty.
pub fn parse_target_groups(doc: &Json) -> (found: Vec<TargetGroup>)
    ensures
        group_keys(found@) == identified_groups(
            items_at(*doc, "TargetGroups"@),
            items_at(*doc, "TargetGroups"@).len() as int,
        ),
        forall|i: int| 0 <= i < found@.len() ==> (#[trigger] found@[i]).targets@.len() == 0,
{
    let mut found: Vec<TargetGroup> = Vec::new();
    assert(group_keys(found@) =~= Seq::<(Seq<char>, u16)>::empty());
    let items = match doc.array_member("TargetGroups") {
        Some(items) => items,
        None => {
            return found;
        },
    };
    let mut i: usize = 0;
    while i < items.len()
        invariant
            i <= items.len(),
            group_keys(found@) == identified_groups(items@, i as int),
            forall|j: int| 0 <= j < found@.len() ==> (#[trigger] found@[j]).targets@.len() == 0,
        decreases items.len() - i,
    {
        match items[i].text_member("TargetGroupArn") {
            Some(arn) => {
                let ghost before = group_keys(found@);
                let port = port_member(&items[i], "Port", 0);
                found.push(TargetGroup { arn: String::from_str(arn), port, targets: Vec::new() });
                assert(group_keys(found@) =~= before.push((arn@, port)));
            },
            None => {},
        }
        i += 1;
    }
    found
}

/// Health, identifier and port of each target.
pub open spec fn target_states(targets: Seq<LoadBalancerTarget>) -> Seq<
    (Seq<char>, Seq<char>, u16),
> {
    Seq::new(targets.len(), |i: int| (targets[i].health@, targets[i].id@, targets[i].port))
}

/// Health, identifier and port of those among the first `n` health
/// descriptions that identify their target. A target without a port of its
/// own listens on the group's port; one without a health state has the
/// empty state.
pub open spec fn described_targets(items: Seq<Json>, group_port: u16, n: int) -> Seq<
    (Seq<char>, Seq<char>, u16),
>
    decreases n,
{
    if n <= 0 {
        Seq::empty()
    } else {
        let target = member(items[n - 1], "Target"@);
        match text_of(member_in(target, "Id"@)) {
            Some(id) => described_targets(items, group_port, n - 1).push(
                (
                    text_or_empty(
                        text_of(member_in(member(items[n - 1], "TargetHealth"@), "State"@)),
                    ),
                    id,
                    port_or(unsigned_of(member_in(target, "Port"@)), group_port),
                ),
            ),
            None => described_targets(items, group_port, n - 1),
        }
    }
}

/// The targets of a `describe-target-health` answer that are identified, in
/// order, healthy or not. Their security groups and rules are left empty.
pub fn parse_target_health(doc: &Json, group_port: u16) -> (found: Vec<LoadBalancerTarget>)
    ensures
        target_states(found@) == described_targets(
            items_at(*doc, "TargetHealthDescriptions"@),
            group_port,
            items_at(*doc, "TargetHealthDescriptions"@).len() as int,
        ),
        forall|i: int|
            0 <= i < found@.len() ==> (#[trigger] found@[i]).security_group_ids@.len() == 0
                && found@[i].rules@.len() == 0,
{
    let mut found: Vec<LoadBalancerTarget> = Vec::new();
    assert(target_states(found@) =~= Seq::<(Seq<char>, Seq<char>, u16)>::empty());
    let items = match doc.array_member("TargetHealthDescriptions") {
        Some(items) => items,
        None => {
            return found;
        },
    };
    let mut i: usize = 0;
    while i < items.len()
        invariant
            i <= items.len(),
            target_states(found@) == described_targets(items@, group_port, i as int),
            forall|j: int|
                0 <= j < found@.len() ==> (#[trigger] found@[j]).security_group_ids@.len() == 0
                    && found@[j].rules@.len() == 0,
        decreases items.len() - i,
    {
        match items[i].get("Target") {
            Some(target) => match target.text_member("Id") {
                Some(id) => {
                    let health = match items[i].get("TargetHealth") {
                        Some(h) => match h.text_member("State") {
                            Some(s) => String::from_str(s),
                            None => String::new(),
                        },
                        None => String::new(),
                    };
                    let port = port_member(target, "Port", group_port);
                    let ghost before = target_states(found@);
                    found.push(
                        LoadBalancerTarget {
                            health,
                            id: String::from_str(id),
                            port,
                            security_group_ids: Vec::new(),
                            rules: Vec::new(),
                        },
                    );
                    assert(target_states(found@) =~= before.push((health@, id@, port)));
                },
                None => {},
            },
            None => {},
        }
        i += 1;
    }
    found
}

// ── Network interfaces ───────────────────────────────────────────────────

/// The filter that selects the network interfaces of a target: by instance
/// where the target is an instance id, by private address otherwise.
pub open spec fn interface_filter(target_id: Seq<char>) -> Seq<char> {
    if starts_with(target_id, "i-"@) {
        "Name=attachment.instance-id,Values="@ + target_id
    } else {
        "Name=addresses.private-ip-address,Values="@ + target_id
    }
}

pub fn network_interface_filter(target_id: &str) -> (filter: String)
    ensures
        filter@ == interface_filter(target_id@),
{
    let id = chars_of(target_id);
    let prefix = chars_of("i-");
    if matches_at(&id, 0, &prefix) {
        String::from_str("Name=attachment.instance-id,Values=").concat(target_id)
    } else {
        String::from_str("Name=addresses.private-ip-address,Values=").concat(target_id)
    }
}

/// `acc` with the `GroupId` of each of the first `n` items added, each once.
pub open spec fn add_group_ids(acc: Seq<Seq<char>>, items: Seq<Json>, n: int) -> Seq<Seq<char>>
    decreases n,
{
    if n <= 0 {
        acc
    } else {
        match text_at(items[n - 1], "GroupId"@) {
            Some(id) => push_unique(add_group_ids(acc, items, n - 1), id),
            None => add_group_ids(acc, items, n - 1),
        }
    }
}

/// The security groups of the first `n` network interfaces, each once, in
/// the order in which they are first named.
pub open spec fn interface_groups(interfaces: Seq<Json>, n: int) -> Seq<Seq<char>>
    decreases n,
{
    if n <= 0 {
        Seq::empty()
    } else {
        add_group_ids(
            interface_groups(interfaces, n - 1),
            items_at(interfaces[n - 1], "Groups"@),
            items_at(interfaces[n - 1], "Groups"@).len() as int,
        )
    }
}

fn add_ids(found: &mut Vec<String>, items: &Vec<Json>)
    ensures
        texts(final(found)@) == add_group_ids(texts(old(found)@), items@, items@.len() as int),
{
    let mut k: usize = 0;
    while k < items.len()
        invariant
            k <= items.len(),
            texts(found@) == add_group_ids(texts(old(found)@), items@, k as int),
        decreases items.len() - k,
    {
        match items[k].text_member("GroupId") {
            Some(id) => {
                let owned = String::from_str(id);
                if !holds_text(found.as_slice(), &owned) {
                    let ghost before = texts(found@);
                    found.push(owned);
                    assert(texts(found@) =~= before.push(id@));
                }
            },
            None => {},
        }
        k += 1;
    }
}

/// The security groups behind a target, from a `describe-network-interfaces`
/// answer.
pub fn get_target_sg_ids(doc: &Json) -> (found: Vec<String>)
    ensures
        texts(found@) == interface_groups(
            items_at(*doc, "NetworkInterfaces"@),
            items_at(*doc, "NetworkInterfaces"@).len() as int,
        ),
{
    let mut found: Vec<String> = Vec::new();
    assert(texts(found@) =~= Seq::<Seq<char>>::empty());
    let interfaces = match doc.array_member("NetworkInterfaces") {
        Some(items) => items,
        None => {
            return found;
        },
    };
    let mut i: usize = 0;
    while i < interfaces.len()
        invariant
            i <= interfaces.len(),
            texts(found@) == interface_groups(interfaces@, i as int),
        decreases interfaces.len() - i,
    {
        match interfaces[i].array_member("Groups") {
            Some(groups) => {
                add_ids(&mut found, groups);
            },
            None => {},
        }
        i += 1;
    }
    found
}

// ── Security-group rules ─────────────────────────────────────────────────

/// The `GroupId` of each of the first `n` items that has one.
pub open spec fn pair_groups(pairs: Seq<Json>, n: int) -> Seq<Seq<char>>
    decreases n,
{
    if n <= 0 {
        Seq::empty()
    } else {
        match text_at(pairs[n - 1], "GroupId"@) {
            Some(id) => pair_groups(pairs, n - 1).push(id),
            None => pair_groups(pairs, n - 1),
        }
    }
}

/// A bound of a port range as the answers carry it: the low 16 bits of a
/// signed number, or 0 where there is no such number.
pub open spec fn bound_or_zero(number: Option<i64>) -> u16 {
    match number {
        Some(n) => low16(n as int),
        None => 0,
    }
}

/// The rule that one inbound permission states.
pub open spec fn rule_of(permission: Json) -> SecurityGroupRuleView {
    SecurityGroupRuleView {
        protocol: text_or_empty(text_at(permission, "IpProtocol"@)),
        from_port: bound_or_zero(signed_of(member(permission, "FromPort"@))),
        to_port: bound_or_zero(signed_of(member(permission, "ToPort"@))),
        source_groups: pair_groups(
            items_at(permission, "UserIdGroupPairs"@),
            items_at(permission, "UserIdGroupPairs"@).len() as int,
        ),
    }
}

/// The rules of the first `n` permissions.
pub open spec fn rules_in(permissions: Seq<Json>, n: int) -> Seq<SecurityGroupRuleView>
    decreases n,
{
    if n <= 0 {
        Seq::empty()
    } else {
        rules_in(permissions, n - 1).push(rule_of(permissions[n - 1]))
    }
}

/// The inbound rules of the first `n` security groups, in order.
pub open spec fn rules_of(groups: Seq<Json>, n: int) -> Seq<SecurityGroupRuleView>
    decreases n,
{
    if n <= 0 {
        Seq::empty()
    } else {
        rules_of(groups, n - 1) + rules_in(
            items_at(groups[n - 1], "IpPermissions"@),
            items_at(groups[n - 1], "IpPermissions"@).len() as int,
        )
    }
}

/// The views of a list of rules.
pub open spec fn rule_views(rules: Seq<SecurityGroupRule>) -> Seq<SecurityGroupRuleView> {
    Seq::new(rules.len(), |i: int| rules[i]@)
}

fn bound_member(doc: &Json, key: &str) -> (bound: u16)
    ensures
        bound == bound_or_zero(signed_of(member(*doc, key@))),
{
    match doc.get(key) {
        Some(v) => match v.as_i64() {
            Some(n) => low16_of_i64(n),
            None => 0,
        },
        None => 0,
    }
}

fn read_rule(permission: &Json) -> (rule: SecurityGroupRule)
    ensures
        rule@ == rule_of(*permission),
{
    let protocol = match permission.text_member("IpProtocol") {
        Some(p) => String::from_str(p),
        None => String::new(),
    };
    let mut sources: Vec<String> = Vec::new();
    assert(texts(sources@) =~= Seq::<Seq<char>>::empty());
    match permission.array_member("UserIdGroupPairs") {
        Some(pairs) => {
            let mut k: usize = 0;
            while k < pairs.len()
                invariant
                    k <= pairs.len(),
                    texts(sources@) == pair_groups(pairs@, k as int),
                decreases pairs.len() - k,
            {
                match pairs[k].text_member("GroupId") {
                    Some(id) => {
                        let ghost before = texts(sources@);
                        sources.push(String::from_str(id));
                        assert(texts(sources@) =~= before.push(id@));
                    },
                    None => {},
                }
                k += 1;
            }
        },
        None => {},
    }
    SecurityGroupRule {
        protocol,
        from_port: bound_member(permission, "FromPort"),
        to_port: bound_member(permission, "ToPort"),
        source_groups: sources,
    }
}

/// The inbound rules of a `describe-security-groups` answer, in order.
pub fn parse_security_group_rules(doc: &Json) -> (found: Vec<SecurityGroupRule>)
    ensures
        rule_views(found@) == rules_of(
            items_at(*doc, "SecurityGroups"@),
            items_at(*doc, "SecurityGroups"@).len() as int,
        ),
{
    let mut found: Vec<SecurityGroupRule> = Vec::new();
    assert(rule_views(found@) =~= Seq::<SecurityGroupRuleView>::empty());
    let groups = match doc.array_member("SecurityGroups") {
        Some(items) => items,
        None => {
            return found;
        },
    };
    let mut g: usize = 0;
    while g < groups.len()
        invariant
            g <= groups.len(),
            rule_views(found@) == rules_of(groups@, g as int),
        decreases groups.len() - g,
    {
        match groups[g].array_member("IpPermissions") {
            Some(permissions) => {
                let mut p: usize = 0;
                assert(rule_views(found@) =~= rules_of(groups@, g as int) + rules_in(
                    permissions@,
                    0,
                ));
                while p < permissions.len()
                    invariant
                        p <= permissions.len(),
                        g < groups.len(),
                        permissions@ == items_at(groups@[g as int], "IpPermissions"@),
                        rule_views(found@) == rules_of(groups@, g as int) + rules_in(
                            permissions@,
                            p as int,
                        ),
                    decreases permissions.len() - p,
                {
                    let ghost before = rule_views(found@);
                    let rule = read_rule(&permissions[p]);
                    found.push(rule);
                    assert(rule_views(found@) =~= before.push(rule_of(permissions@[p as int])));
                    assert(rule_views(found@) =~= rules_of(groups@, g as int) + rules_in(
                        permissions@,
                        p + 1,
                    ));
                    p += 1;
                }
            },
            None => {
                assert(rules_of(groups@, g + 1) =~= rules_of(groups@, g as int));
            },
        }
        g += 1;
    }
    found
}

} // verus!
