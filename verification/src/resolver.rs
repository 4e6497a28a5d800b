//! The path resolver: from a host and one inventory snapshot to a concrete
//! reachable endpoint.
//!
//! Three strategies are tried in order, and the first that succeeds wins: an
//! instance that owns a resolved address, a load balancer that fronts the
//! host and has a healthy target behind a permitted relay, and a bastion that
//! forwards to the host by name. Among candidates, the earlier in enumeration
//! order always wins.

use vstd::prelude::*;
use crate::error::{AppError, AppErrorView};
use crate::models::{
    texts, Address, Instance, Inventory, LoadBalancer, LoadBalancerTarget, SecurityGroupRule,
    SsmStatus, TargetGroup, TunnelTarget, TunnelTargetView,
};
use crate::text::{
    before_char, chars_of, contains, is_substring, lemma_index_of_bounds, lowercase, matches_at,
    skip_leading, starts_with, str_eq, string_from, strip_leading,
};

verus! {

// ── Name resolver ────────────────────────────────────────────────────────

/// Every address is a loopback address. This holds of no addresses at all.
pub open spec fn all_loopback(addrs: Seq<Address>) -> bool {
    forall|i: int| 0 <= i < addrs.len() ==> (#[trigger] addrs[i]).loopback
}

/// What a host resolves to: the local answer, unless a local override hides
/// the host behind loopback addresses and the external resolver knows better.
pub open spec fn resolved_addresses(local: Seq<Address>, external: Seq<Address>) -> Seq<Address> {
    if all_loopback(local) && external.len() > 0 {
        external
    } else {
        local
    }
}

/// Must the external resolver be asked?
pub fn needs_external_lookup(local: &[Address]) -> (b: bool)
    ensures
        b == all_loopback(local@),
{
    let mut i: usize = 0;
    while i < local.len()
        invariant
            i <= local.len(),
            forall|j: int| 0 <= j < i ==> (#[trigger] local@[j]).loopback,
        decreases local.len() - i,
    {
        if !local[i].loopback {
            return false;
        }
        i += 1;
    }
    true
}

/// Chooses between the local and the external answer.
pub fn resolve(local: Vec<Address>, external: Vec<Address>) -> (r: Vec<Address>)
    ensures
        r@ == resolved_addresses(local@, external@),
{
    if external.len() > 0 && needs_external_lookup(local.as_slice()) {
        external
    } else {
        local
    }
}

// ── Hosts and schemes ────────────────────────────────────────────────────

/// The host of a URL or of a bare `host[:port][/path]`.
pub open spec fn host_of(input: Seq<char>) -> Seq<char> {
    before_char(
        before_char(strip_leading(strip_leading(input, "https://"@), "http://"@), '/'),
        ':',
    )
}

/// The port that the scheme of an input stands for.
pub open spec fn scheme_port(input: Seq<char>) -> u16 {
    if starts_with(input, "https://"@) {
        443
    } else {
        80
    }
}

pub fn strip_url_to_host(input: &str) -> (host: String)
    ensures
        host@ == host_of(input@),
{
    let s = chars_of(input);
    let secure = chars_of("https://");
    let plain = chars_of("http://");
    assert(s@.subrange(0, s.len() as int) =~= s@);
    let a = skip_leading(&s, 0, &secure);
    let b = skip_leading(&s, a, &plain);
    let ghost rest = s@.subrange(b as int, s.len() as int);
    assert(rest == strip_leading(strip_leading(input@, "https://"@), "http://"@));
    // the part before the first '/', then before the first ':' of that
    let mut end: usize = b;
    let mut colon: usize = s.len();
    while end < s.len() && s[end] != '/'
        invariant
            b <= end <= s.len(),
            colon == s.len() || (b <= colon < end && s@[colon as int] == ':'),
            forall|j: int| b <= j < end ==> s@[j] != '/',
            forall|j: int|
                b <= j < (if colon == s.len() {
                    end as int
                } else {
                    colon as int
                }) ==> s@[j] != ':',
        decreases s.len() - end,
    {
        if colon == s.len() && s[end] == ':' {
            colon = end;
        }
        end += 1;
    }
    let stop = if colon < end {
        colon
    } else {
        end
    };
    proof {
        lemma_prefix_before(rest, (end - b) as int, '/');
        let head = before_char(rest, '/');
        assert(head =~= s@.subrange(b as int, end as int));
        lemma_prefix_before(head, (stop - b) as int, ':');
        assert(before_char(head, ':') =~= s@.subrange(b as int, stop as int));
    }
    string_from(&s, b, stop)
}

/// `k` is where the first `c` of `s` stands, or the length if `s` holds none.
pub proof fn lemma_prefix_before(s: Seq<char>, k: int, c: char)
    requires
        0 <= k <= s.len(),
        k < s.len() ==> s[k] == c,
        forall|j: int| 0 <= j < k ==> s[j] != c,
    ensures
        before_char(s, c) == s.subrange(0, k),
{
    lemma_index_of_bounds(s, 0, c);
    let i = crate::text::index_of(s, 0, c);
    if i < k {
        assert(s[i] == c);
    } else if i > k {
        assert(s[k] != c);
    }
}

/// The port that the scheme of `input` stands for.
pub fn port_for_scheme(input: &str) -> (port: u16)
    ensures
        port == scheme_port(input@),
{
    let s = chars_of(input);
    let secure = chars_of("https://");
    if matches_at(&s, 0, &secure) {
        443
    } else {
        80
    }
}

// ── Strategy 1: an instance that owns a resolved address ─────────────────

/// `addr` is the private or the public address of the instance.
pub open spec fn has_address(inst: Instance, addr: Seq<char>) -> bool {
    ||| inst.private_ip matches Some(ip) && ip@ == addr
    ||| inst.public_ip matches Some(ip) && ip@ == addr
}

/// Index of the first instance at or after `from` that owns `addr`, or the
/// number of instances if none does.
pub open spec fn first_with_address(instances: Seq<Instance>, addr: Seq<char>, from: int) -> int
    decreases instances.len() - from,
{
    if from < 0 || from >= instances.len() {
        instances.len() as int
    } else if has_address(instances[from], addr) {
        from
    } else {
        first_with_address(instances, addr, from + 1)
    }
}

/// Index of the instance that the direct strategy picks: for the first
/// address at or after `from` that any instance owns, the first such instance.
pub open spec fn direct_match(addrs: Seq<Address>, instances: Seq<Instance>, from: int) -> Option<
    int,
>
    decreases addrs.len() - from,
{
    if from < 0 || from >= addrs.len() {
        None
    } else if first_with_address(instances, addrs[from].text@, 0) < instances.len() {
        Some(first_with_address(instances, addrs[from].text@, 0))
    } else {
        direct_match(addrs, instances, from + 1)
    }
}

fn owns_address(inst: &Instance, addr: &String) -> (b: bool)
    ensures
        b == has_address(*inst, addr@),
{
    let private = match &inst.private_ip {
        Some(ip) => *ip == *addr,
        None => false,
    };
    let public = match &inst.public_ip {
        Some(ip) => *ip == *addr,
        None => false,
    };
    private || public
}

/// The instance that owns one of the resolved addresses, if there is one.
pub fn find_direct_match<'a>(addrs: &[Address], instances: &'a [Instance]) -> (r: Option<
    &'a Instance,
>)
    ensures
        match r {
            Some(inst) => direct_match(addrs@, instances@, 0) matches Some(i) && 0 <= i
                < instances.len() && *inst == instances@[i],
            None => direct_match(addrs@, instances@, 0) is None,
        },
{
    let mut a: usize = 0;
    while a < addrs.len()
        invariant
            a <= addrs.len(),
            direct_match(addrs@, instances@, 0) == direct_match(addrs@, instances@, a as int),
        decreases addrs.len() - a,
    {
        let mut i: usize = 0;
        while i < instances.len()
            invariant
                i <= instances.len(),
                a < addrs.len(),
                first_with_address(instances@, addrs@[a as int].text@, 0) == first_with_address(
                    instances@,
                    addrs@[a as int].text@,
                    i as int,
                ),
                direct_match(addrs@, instances@, 0) == direct_match(addrs@, instances@, a as int),
            decreases instances.len() - i,
        {
            if owns_address(&instances[i], &addrs[a].text) {
                return Some(&instances[i]);
            }
            i += 1;
        }
        a += 1;
    }
    None
}

// ── Hop selector ─────────────────────────────────────────────────────────

/// The instance is a member of at least one of the allowed groups.
pub open spec fn is_member_of_any(inst: Instance, allowed: Seq<Seq<char>>) -> bool {
    exists|k: int|
        0 <= k < inst.security_group_ids@.len() && allowed.contains(
            #[trigger] inst.security_group_ids@[k]@,
        )
}

/// The instance can host a forwarding session towards a target that admits
/// the allowed groups: its agent is online, it runs, and it is a member of
/// one of them.
pub open spec fn is_hop(inst: Instance, allowed: Seq<Seq<char>>) -> bool {
    &&& inst.ssm_status == SsmStatus::Online
    &&& inst.state@ is Running
    &&& is_member_of_any(inst, allowed)
}

/// Index of the first hop at or after `from`, or the number of instances if
/// none qualifies.
pub open spec fn first_hop(instances: Seq<Instance>, allowed: Seq<Seq<char>>, from: int) -> int
    decreases instances.len() - from,
{
    if from < 0 || from >= instances.len() {
        instances.len() as int
    } else if is_hop(instances[from], allowed) {
        from
    } else {
        first_hop(instances, allowed, from + 1)
    }
}

/// Is `x` one of `list`?
pub fn holds_text(list: &[String], x: &String) -> (b: bool)
    ensures
        b == texts(list@).contains(x@),
{
    let mut i: usize = 0;
    while i < list.len()
        invariant
            i <= list.len(),
            forall|j: int| 0 <= j < i ==> list@[j]@ != x@,
        decreases list.len() - i,
    {
        if list[i] == *x {
            assert(texts(list@)[i as int] == x@);
            return true;
        }
        i += 1;
    }
    assert forall|j: int| 0 <= j < texts(list@).len() implies texts(list@)[j] != x@ by {
        assert(texts(list@)[j] == list@[j]@);
    }
    false
}

fn member_of_any(inst: &Instance, allowed: &[String]) -> (b: bool)
    ensures
        b == is_member_of_any(*inst, texts(allowed@)),
{
    let mut k: usize = 0;
    while k < inst.security_group_ids.len()
        invariant
            k <= inst.security_group_ids.len(),
            forall|j: int|
                0 <= j < k ==> !texts(allowed@).contains(#[trigger] inst.security_group_ids@[j]@),
        decreases inst.security_group_ids.len() - k,
    {
        if holds_text(allowed, &inst.security_group_ids[k]) {
            return true;
        }
        k += 1;
    }
    false
}

fn qualifies_as_hop(inst: &Instance, allowed: &[String]) -> (b: bool)
    ensures
        b == is_hop(*inst, texts(allowed@)),
{
    match inst.ssm_status {
        SsmStatus::Online => inst.state.is_running() && member_of_any(inst, allowed),
        _ => false,
    }
}

/// The first instance that is connected, running, and a member of one of the
/// allowed source groups; nothing if none qualifies.
pub fn find_ssm_hop_by_sgs<'a>(allowed_sg_ids: &[String], instances: &'a [Instance]) -> (r: Option<
    &'a Instance,
>)
    ensures
        match r {
            Some(inst) => {
                let i = first_hop(instances@, texts(allowed_sg_ids@), 0);
                0 <= i < instances.len() && *inst == instances@[i]
            },
            None => first_hop(instances@, texts(allowed_sg_ids@), 0) == instances.len(),
        },
{
    let mut i: usize = 0;
    while i < instances.len()
        invariant
            i <= instances.len(),
            first_hop(instances@, texts(allowed_sg_ids@), 0) == first_hop(
                instances@,
                texts(allowed_sg_ids@),
                i as int,
            ),
        decreases instances.len() - i,
    {
        if qualifies_as_hop(&instances[i], allowed_sg_ids) {
            return Some(&instances[i]);
        }
        i += 1;
    }
    None
}

/// What `first_hop` returns is a hop, and no instance before it is one.
pub proof fn lemma_first_hop(instances: Seq<Instance>, allowed: Seq<Seq<char>>, from: int)
    requires
        0 <= from <= instances.len(),
    ensures
        from <= first_hop(instances, allowed, from) <= instances.len(),
        first_hop(instances, allowed, from) < instances.len() ==> is_hop(
            instances[first_hop(instances, allowed, from)],
            allowed,
        ),
        forall|j: int|
            from <= j < first_hop(instances, allowed, from) ==> !is_hop(
                #[trigger] instances[j],
                allowed,
            ),
    decreases instances.len() - from,
{
    if from < instances.len() && !is_hop(instances[from], allowed) {
        lemma_first_hop(instances, allowed, from + 1);
    }
}

// ── Permission graph ─────────────────────────────────────────────────────

/// The rule admits traffic to `port`: it is for any protocol, or its port
/// range holds the port.
pub open spec fn rule_admits(rule: SecurityGroupRule, port: u16) -> bool {
    rule.protocol@ == "-1"@ || rule.from_port <= port <= rule.to_port
}

/// `acc` with `x` added at the end, unless `acc` holds it already.
pub open spec fn push_unique(acc: Seq<Seq<char>>, x: Seq<char>) -> Seq<Seq<char>> {
    if acc.contains(x) {
        acc
    } else {
        acc.push(x)
    }
}

/// `acc` with the first `n` of `sources` added, each once.
pub open spec fn add_sources(acc: Seq<Seq<char>>, sources: Seq<String>, n: int) -> Seq<Seq<char>>
    decreases n,
{
    if n <= 0 {
        acc
    } else {
        push_unique(add_sources(acc, sources, n - 1), sources[n - 1]@)
    }
}

/// The source groups that the first `n` rules admit to `port`, each once, in
/// the order in which the rules name them.
pub open spec fn allowed_sources(rules: Seq<SecurityGroupRule>, port: u16, n: int) -> Seq<
    Seq<char>,
>
    decreases n,
{
    if n <= 0 {
        Seq::empty()
    } else if rule_admits(rules[n - 1], port) {
        add_sources(
            allowed_sources(rules, port, n - 1),
            rules[n - 1].source_groups@,
            rules[n - 1].source_groups@.len() as int,
        )
    } else {
        allowed_sources(rules, port, n - 1)
    }
}

fn admits(rule: &SecurityGroupRule, port: u16) -> (b: bool)
    ensures
        b == rule_admits(*rule, port),
{
    str_eq(rule.protocol.as_str(), "-1") || (rule.from_port <= port && port <= rule.to_port)
}

/// The source security groups that may reach `port` under the given inbound
/// rules.
pub fn get_allowed_source_sgs(rules: &[SecurityGroupRule], port: u16) -> (allowed: Vec<String>)
    ensures
        texts(allowed@) == allowed_sources(rules@, port, rules.len() as int),
{
    let mut allowed: Vec<String> = Vec::new();
    assert(texts(allowed@) =~= Seq::<Seq<char>>::empty());
    let mut i: usize = 0;
    while i < rules.len()
        invariant
            i <= rules.len(),
            texts(allowed@) == allowed_sources(rules@, port, i as int),
        decreases rules.len() - i,
    {
        if admits(&rules[i], port) {
            let sources = &rules[i].source_groups;
            let mut k: usize = 0;
            while k < sources.len()
                invariant
                    k <= sources.len(),
                    i < rules.len(),
                    *sources == rules@[i as int].source_groups,
                    texts(allowed@) == add_sources(
                        allowed_sources(rules@, port, i as int),
                        sources@,
                        k as int,
                    ),
                decreases sources.len() - k,
            {
                if !holds_text(allowed.as_slice(), &sources[k]) {
                    let ghost before = texts(allowed@);
                    allowed.push(sources[k].clone());
                    assert(texts(allowed@) =~= before.push(sources@[k as int]@));
                }
                k += 1;
            }
        }
        i += 1;
    }
    allowed
}

/// A group is among the allowed sources exactly if a rule that admits the
/// port names it.
pub proof fn law_allowed_sources_are_the_admitted(rules: Seq<SecurityGroupRule>, port: u16, n: int, x: Seq<char>)
    requires
        0 <= n <= rules.len(),
    ensures
        allowed_sources(rules, port, n).contains(x) <==> exists|i: int, k: int|
            0 <= i < n && rule_admits(rules[i], port) && 0 <= k < rules[i].source_groups@.len()
                && #[trigger] rules[i].source_groups@[k]@ == x,
    decreases n,
{
    if n > 0 {
        law_allowed_sources_are_the_admitted(rules, port, n - 1, x);
        let prev = allowed_sources(rules, port, n - 1);
        let last = rules[n - 1];
        if rule_admits(last, port) {
            lemma_add_sources(prev, last.source_groups@, last.source_groups@.len() as int, x);
            if allowed_sources(rules, port, n).contains(x) {
                if !prev.contains(x) {
                    let k = choose|k: int|
                        0 <= k < last.source_groups@.len() && last.source_groups@[k]@ == x;
                    assert(rules[n - 1].source_groups@[k]@ == x);
                }
            }
        }
    }
}

/// A group is in `add_sources` exactly if it was in `acc` or is one of the
/// first `n` sources.
pub proof fn lemma_add_sources(acc: Seq<Seq<char>>, sources: Seq<String>, n: int, x: Seq<char>)
    requires
        0 <= n <= sources.len(),
    ensures
        add_sources(acc, sources, n).contains(x) <==> acc.contains(x) || exists|k: int|
            0 <= k < n && #[trigger] sources[k]@ == x,
    decreases n,
{
    if n > 0 {
        lemma_add_sources(acc, sources, n - 1, x);
        let prev = add_sources(acc, sources, n - 1);
        let y = sources[n - 1]@;
        if !prev.contains(y) {
            assert(prev.push(y)[prev.len() as int] == y);
            if prev.push(y).contains(x) && !prev.contains(x) {
                let j = choose|j: int| 0 <= j < prev.push(y).len() && prev.push(y)[j] == x;
                assert(j == prev.len());
            }
            if prev.contains(x) {
                let j = choose|j: int| 0 <= j < prev.len() && prev[j] == x;
                assert(prev.push(y)[j] == x);
            }
        }
    }
}

// ── Healthy targets ──────────────────────────────────────────────────────

/// The target passes its health checks, and listens on the port asked for
/// where one was asked for.
pub open spec fn is_usable(target: LoadBalancerTarget, remote_port: Option<u16>) -> bool {
    &&& target.health@ == "healthy"@
    &&& remote_port matches Some(p) ==> target.port == p
}

/// Identifier and port of the usable ones among the first `n` targets.
pub open spec fn usable_in(targets: Seq<LoadBalancerTarget>, remote_port: Option<u16>, n: int)
    -> Seq<(Seq<char>, u16)>
    decreases n,
{
    if n <= 0 {
        Seq::empty()
    } else if is_usable(targets[n - 1], remote_port) {
        usable_in(targets, remote_port, n - 1).push((targets[n - 1].id@, targets[n - 1].port))
    } else {
        usable_in(targets, remote_port, n - 1)
    }
}

/// Identifier and port of the usable targets of the first `n` groups, in
/// target-group enumeration order.
pub open spec fn usable_targets(groups: Seq<TargetGroup>, remote_port: Option<u16>, n: int) -> Seq<
    (Seq<char>, u16),
>
    decreases n,
{
    if n <= 0 {
        Seq::empty()
    } else {
        usable_targets(groups, remote_port, n - 1) + usable_in(
            groups[n - 1].targets@,
            remote_port,
            groups[n - 1].targets@.len() as int,
        )
    }
}

/// Identifier and port of a list of targets.
pub open spec fn target_keys(targets: Seq<(String, u16)>) -> Seq<(Seq<char>, u16)> {
    Seq::new(targets.len(), |i: int| (targets[i].0@, targets[i].1))
}

fn usable(target: &LoadBalancerTarget, remote_port: Option<u16>) -> (b: bool)
    ensures
        b == is_usable(*target, remote_port),
{
    if !str_eq(target.health.as_str(), "healthy") {
        return false;
    }
    match remote_port {
        Some(p) => target.port == p,
        None => true,
    }
}

/// The healthy targets of a load balancer's target groups, in enumeration
/// order; only those on `remote_port` where one is given.
pub fn get_alb_healthy_targets(groups: &[TargetGroup], remote_port: Option<u16>) -> (found: Vec<
    (String, u16),
>)
    ensures
        target_keys(found@) == usable_targets(groups@, remote_port, groups.len() as int),
{
    let mut found: Vec<(String, u16)> = Vec::new();
    assert(target_keys(found@) =~= Seq::<(Seq<char>, u16)>::empty());
    let mut g: usize = 0;
    while g < groups.len()
        invariant
            g <= groups.len(),
            target_keys(found@) == usable_targets(groups@, remote_port, g as int),
        decreases groups.len() - g,
    {
        let targets = &groups[g].targets;
        let mut t: usize = 0;
        assert(target_keys(found@) =~= usable_targets(groups@, remote_port, g as int) + usable_in(
            targets@,
            remote_port,
            0,
        ));
        while t < targets.len()
            invariant
                t <= targets.len(),
                g < groups.len(),
                *targets == groups@[g as int].targets,
                target_keys(found@) == usable_targets(groups@, remote_port, g as int) + usable_in(
                    targets@,
                    remote_port,
                    t as int,
                ),
            decreases targets.len() - t,
        {
            if usable(&targets[t], remote_port) {
                let ghost before = target_keys(found@);
                found.push((targets[t].id.clone(), targets[t].port));
                assert(target_keys(found@) =~= before.push(
                    (targets@[t as int].id@, targets@[t as int].port),
                ));
                assert(target_keys(found@) =~= usable_targets(groups@, remote_port, g as int)
                    + usable_in(targets@, remote_port, t + 1));
            }
            t += 1;
        }
        g += 1;
    }
    found
}

// ── Strategy 2: a load balancer that fronts the host ─────────────────────

/// The load balancer is the entry point for the host: it has a public name
/// and an identity, and its addresses and the host's outward addresses
/// intersect.
pub open spec fn fronts(lb: LoadBalancer, resolved: Seq<Address>) -> bool {
    &&& lb.dns_name@.len() > 0
    &&& lb.arn is Some
    &&& exists|i: int, j: int|
        0 <= i < resolved.len() && 0 <= j < lb.addresses@.len() && !resolved[i].loopback
            && #[trigger] resolved[i].text@ == #[trigger] lb.addresses@[j]@
}

/// Index of the first load balancer at or after `from` that fronts the host,
/// or the number of load balancers if none does.
pub open spec fn first_fronting(lbs: Seq<LoadBalancer>, resolved: Seq<Address>, from: int) -> int
    decreases lbs.len() - from,
{
    if from < 0 || from >= lbs.len() {
        lbs.len() as int
    } else if fronts(lbs[from], resolved) {
        from
    } else {
        first_fronting(lbs, resolved, from + 1)
    }
}

fn shares_address(lb: &LoadBalancer, resolved: &[Address]) -> (b: bool)
    ensures
        b == exists|i: int, j: int|
            0 <= i < resolved@.len() && 0 <= j < lb.addresses@.len() && !resolved@[i].loopback
                && #[trigger] resolved@[i].text@ == #[trigger] lb.addresses@[j]@,
{
    let mut i: usize = 0;
    while i < resolved.len()
        invariant
            i <= resolved.len(),
            forall|a: int, j: int|
                0 <= a < i && 0 <= j < lb.addresses@.len() && !resolved@[a].loopback
                    ==> #[trigger] resolved@[a].text@ != #[trigger] lb.addresses@[j]@,
        decreases resolved.len() - i,
    {
        if !resolved[i].loopback {
            let mut j: usize = 0;
            while j < lb.addresses.len()
                invariant
                    j <= lb.addresses.len(),
                    i < resolved.len(),
                    !resolved@[i as int].loopback,
                    forall|b: int|
                        0 <= b < j ==> resolved@[i as int].text@ != #[trigger] lb.addresses@[b]@,
                decreases lb.addresses.len() - j,
            {
                if resolved[i].text == lb.addresses[j] {
                    return true;
                }
                j += 1;
            }
        }
        i += 1;
    }
    false
}

fn is_fronting(lb: &LoadBalancer, resolved: &[Address]) -> (b: bool)
    ensures
        b == fronts(*lb, resolved@),
{
    if lb.dns_name.as_str().unicode_len() == 0 {
        return false;
    }
    match &lb.arn {
        Some(_) => shares_address(lb, resolved),
        None => false,
    }
}

fn fronting_index(resolved: &[Address], load_balancers: &[LoadBalancer]) -> (r: usize)
    ensures
        r == first_fronting(load_balancers@, resolved@, 0),
        r <= load_balancers.len(),
{
    let mut i: usize = 0;
    while i < load_balancers.len()
        invariant
            i <= load_balancers.len(),
            first_fronting(load_balancers@, resolved@, 0) == first_fronting(
                load_balancers@,
                resolved@,
                i as int,
            ),
        decreases load_balancers.len() - i,
    {
        if is_fronting(&load_balancers[i], resolved) {
            return i;
        }
        i += 1;
    }
    i
}

/// The identity of the first load balancer whose addresses and the host's
/// outward addresses intersect.
pub fn find_alb_for_hostname(resolved: &[Address], load_balancers: &[LoadBalancer]) -> (arn: Option<
    String,
>)
    ensures
        match arn {
            Some(a) => {
                let i = first_fronting(load_balancers@, resolved@, 0);
                0 <= i < load_balancers.len() && load_balancers@[i].arn == Some(a)
            },
            None => first_fronting(load_balancers@, resolved@, 0) == load_balancers.len(),
        },
{
    let i = fronting_index(resolved, load_balancers);
    if i < load_balancers.len() {
        proof {
            lemma_first_fronting(load_balancers@, resolved@, 0);
        }
        match &load_balancers[i].arn {
            Some(a) => Some(a.clone()),
            None => None,
        }
    } else {
        None
    }
}

/// What `first_fronting` returns fronts the host, and no load balancer
/// before it does.
pub proof fn lemma_first_fronting(lbs: Seq<LoadBalancer>, resolved: Seq<Address>, from: int)
    requires
        0 <= from <= lbs.len(),
    ensures
        from <= first_fronting(lbs, resolved, from) <= lbs.len(),
        first_fronting(lbs, resolved, from) < lbs.len() ==> fronts(
            lbs[first_fronting(lbs, resolved, from)],
            resolved,
        ),
        forall|j: int|
            from <= j < first_fronting(lbs, resolved, from) ==> !fronts(
                #[trigger] lbs[j],
                resolved,
            ),
    decreases lbs.len() - from,
{
    if from < lbs.len() && !fronts(lbs[from], resolved) {
        lemma_first_fronting(lbs, resolved, from + 1);
    }
}

/// Index of the relay through which the target can be reached, or the
/// number of instances if there is none. A target whose security groups are
/// unknown has none.
pub open spec fn relay_for(target: LoadBalancerTarget, instances: Seq<Instance>) -> int {
    if target.security_group_ids@.len() == 0 {
        instances.len() as int
    } else {
        first_hop(
            instances,
            allowed_sources(target.rules@, target.port, target.rules@.len() as int),
            0,
        )
    }
}

/// The target is usable and a relay may reach it.
pub open spec fn is_reachable(
    target: LoadBalancerTarget,
    remote_port: Option<u16>,
    instances: Seq<Instance>,
) -> bool {
    is_usable(target, remote_port) && relay_for(target, instances) < instances.len()
}

/// Index of the first reachable target at or after `from`, or the number of
/// targets if there is none.
pub open spec fn first_reachable_in(
    targets: Seq<LoadBalancerTarget>,
    remote_port: Option<u16>,
    instances: Seq<Instance>,
    from: int,
) -> int
    decreases targets.len() - from,
{
    if from < 0 || from >= targets.len() {
        targets.len() as int
    } else if is_reachable(targets[from], remote_port, instances) {
        from
    } else {
        first_reachable_in(targets, remote_port, instances, from + 1)
    }
}

/// The group has a reachable target.
pub open spec fn has_reachable(
    group: TargetGroup,
    remote_port: Option<u16>,
    instances: Seq<Instance>,
) -> bool {
    first_reachable_in(group.targets@, remote_port, instances, 0) < group.targets@.len()
}

/// Index of the first group at or after `from` that has a reachable target,
/// or the number of groups if there is none.
pub open spec fn first_reachable_group(
    groups: Seq<TargetGroup>,
    remote_port: Option<u16>,
    instances: Seq<Instance>,
    from: int,
) -> int
    decreases groups.len() - from,
{
    if from < 0 || from >= groups.len() {
        groups.len() as int
    } else if has_reachable(groups[from], remote_port, instances) {
        from
    } else {
        first_reachable_group(groups, remote_port, instances, from + 1)
    }
}

/// The path through the target's relay to the target.
pub open spec fn relay_path(target: LoadBalancerTarget, instances: Seq<Instance>)
    -> TunnelTargetView {
    let hop = instances[relay_for(target, instances)];
    TunnelTargetView::RemoteViaBastion {
        bastion_id: hop.id@,
        bastion_name: hop.name@,
        target_host: target.id@,
        target_port: target.port,
    }
}

/// The path that the load balancer gives: through the relay of its first
/// reachable target, in target-group enumeration order.
pub open spec fn balancer_path(
    lb: LoadBalancer,
    remote_port: Option<u16>,
    instances: Seq<Instance>,
) -> Option<TunnelTargetView> {
    let groups = lb.target_groups@;
    let g = first_reachable_group(groups, remote_port, instances, 0);
    if g < groups.len() {
        let t = first_reachable_in(groups[g].targets@, remote_port, instances, 0);
        Some(relay_path(groups[g].targets@[t], instances))
    } else {
        None
    }
}

fn find_relay<'a>(target: &LoadBalancerTarget, instances: &'a [Instance]) -> (r: Option<
    &'a Instance,
>)
    ensures
        match r {
            Some(hop) => 0 <= relay_for(*target, instances@) < instances.len() && *hop
                == instances@[relay_for(*target, instances@)],
            None => relay_for(*target, instances@) == instances.len(),
        },
{
    if target.security_group_ids.len() == 0 {
        return None;
    }
    let allowed = get_allowed_source_sgs(target.rules.as_slice(), target.port);
    find_ssm_hop_by_sgs(allowed.as_slice(), instances)
}

fn path_through(hop: &Instance, target: &LoadBalancerTarget) -> (path: TunnelTarget)
    ensures
        path@ == (TunnelTargetView::RemoteViaBastion {
            bastion_id: hop.id@,
            bastion_name: hop.name@,
            target_host: target.id@,
            target_port: target.port,
        }),
{
    TunnelTarget::RemoteViaBastion {
        bastion_id: hop.id.clone(),
        bastion_name: hop.name.clone(),
        target_host: target.id.clone(),
        target_port: target.port,
    }
}

/// The path through the load balancer's first reachable target, or
/// `NoHopAvailable` with the load balancer's name if no target is reachable.
pub fn resolve_via_load_balancer(
    lb: &LoadBalancer,
    remote_port: Option<u16>,
    instances: &[Instance],
) -> (r: Result<TunnelTarget, AppError>)
    ensures
        match r {
            Ok(path) => balancer_path(*lb, remote_port, instances@) == Some(path@),
            Err(e) => balancer_path(*lb, remote_port, instances@) is None && e@
                == (AppErrorView::NoHopAvailable { host: lb.dns_name@ }),
        },
{
    let groups = &lb.target_groups;
    let mut g: usize = 0;
    while g < groups.len()
        invariant
            g <= groups.len(),
            *groups == lb.target_groups,
            first_reachable_group(groups@, remote_port, instances@, 0) == first_reachable_group(
                groups@,
                remote_port,
                instances@,
                g as int,
            ),
        decreases groups.len() - g,
    {
        let targets = &groups[g].targets;
        let mut t: usize = 0;
        while t < targets.len()
            invariant
                t <= targets.len(),
                g < groups.len(),
                *groups == lb.target_groups,
                *targets == groups@[g as int].targets,
                first_reachable_in(targets@, remote_port, instances@, 0) == first_reachable_in(
                    targets@,
                    remote_port,
                    instances@,
                    t as int,
                ),
                first_reachable_group(groups@, remote_port, instances@, 0)
                    == first_reachable_group(groups@, remote_port, instances@, g as int),
            decreases targets.len() - t,
        {
            if usable(&targets[t], remote_port) {
                match find_relay(&targets[t], instances) {
                    Some(hop) => {
                        return Ok(path_through(hop, &targets[t]));
                    },
                    None => {},
                }
            }
            t += 1;
        }
        g += 1;
    }
    Err(AppError::NoHopAvailable { host: lb.dns_name.clone() })
}

// ── Strategy 3: a bastion that forwards by name ──────────────────────────

/// The instance is a bastion: its name holds `bastion`, in any case, and it
/// runs.
pub open spec fn is_bastion(inst: Instance) -> bool {
    is_substring(lowercase(inst.name@), "bastion"@) && inst.state@ is Running
}

/// The instance is a bastion whose connectivity agent is online.
pub open spec fn is_online_bastion(inst: Instance) -> bool {
    is_bastion(inst) && inst.ssm_status == SsmStatus::Online
}

/// Index of the first online bastion at or after `from`, or the number of
/// instances if there is none.
pub open spec fn first_online_bastion(instances: Seq<Instance>, from: int) -> int
    decreases instances.len() - from,
{
    if from < 0 || from >= instances.len() {
        instances.len() as int
    } else if is_online_bastion(instances[from]) {
        from
    } else {
        first_online_bastion(instances, from + 1)
    }
}

/// The host that a bastion is asked to forward to: the first resolved
/// address, or the host by name where nothing was resolved.
pub open spec fn forward_host(input: Seq<char>, resolved: Seq<Address>) -> Seq<char> {
    if resolved.len() > 0 {
        resolved[0].text@
    } else {
        host_of(input)
    }
}

/// The path through the first online bastion, or `NoPathFound`.
pub open spec fn bastion_path(input: Seq<char>, resolved: Seq<Address>, instances: Seq<Instance>)
    -> Result<TunnelTargetView, AppErrorView> {
    let b = first_online_bastion(instances, 0);
    if b < instances.len() {
        Ok(
            TunnelTargetView::RemoteViaBastion {
                bastion_id: instances[b].id@,
                bastion_name: instances[b].name@,
                target_host: forward_host(input, resolved),
                target_port: scheme_port(input),
            },
        )
    } else {
        Err(AppErrorView::NoPathFound { host: host_of(input) })
    }
}

/// Is the instance a bastion?
pub fn bastion_like(inst: &Instance) -> (b: bool)
    ensures
        b == is_bastion(*inst),
{
    if !inst.state.is_running() {
        return false;
    }
    let lower = inst.name.as_str().to_lowercase();
    let hay = chars_of(lower.as_str());
    let needle = chars_of("bastion");
    contains(&hay, &needle)
}

fn online(inst: &Instance) -> (b: bool)
    ensures
        b == (inst.ssm_status == SsmStatus::Online),
{
    match inst.ssm_status {
        SsmStatus::Online => true,
        _ => false,
    }
}

fn find_online_bastion<'a>(instances: &'a [Instance]) -> (r: Option<&'a Instance>)
    ensures
        match r {
            Some(inst) => {
                let i = first_online_bastion(instances@, 0);
                0 <= i < instances.len() && *inst == instances@[i]
            },
            None => first_online_bastion(instances@, 0) == instances.len(),
        },
{
    let mut i: usize = 0;
    while i < instances.len()
        invariant
            i <= instances.len(),
            first_online_bastion(instances@, 0) == first_online_bastion(instances@, i as int),
        decreases instances.len() - i,
    {
        if online(&instances[i]) && bastion_like(&instances[i]) {
            return Some(&instances[i]);
        }
        i += 1;
    }
    None
}

/// The path through the first online bastion to the host.
pub fn resolve_via_bastion(input: &str, resolved: &[Address], instances: &[Instance]) -> (r: Result<
    TunnelTarget,
    AppError,
>)
    ensures
        match r {
            Ok(path) => bastion_path(input@, resolved@, instances@) == Ok::<
                TunnelTargetView,
                AppErrorView,
            >(path@),
            Err(e) => bastion_path(input@, resolved@, instances@) == Err::<
                TunnelTargetView,
                AppErrorView,
            >(e@),
        },
{
    let host = strip_url_to_host(input);
    match find_online_bastion(instances) {
        Some(bastion) => {
            let target_host = if resolved.len() > 0 {
                resolved[0].text.clone()
            } else {
                host
            };
            Ok(
                TunnelTarget::RemoteViaBastion {
                    bastion_id: bastion.id.clone(),
                    bastion_name: bastion.name.clone(),
                    target_host,
                    target_port: port_for_scheme(input),
                },
            )
        },
        None => Err(AppError::NoPathFound { host }),
    }
}

// ── The three strategies in order ────────────────────────────────────────

/// The path that the load-balancer strategy gives, if the host has a load
/// balancer in front of it and a target of it is reachable.
pub open spec fn fronting_path(
    remote_port: Option<u16>,
    resolved: Seq<Address>,
    inventory: Inventory,
) -> Option<TunnelTargetView> {
    let lbs = inventory.load_balancers@;
    let l = first_fronting(lbs, resolved, 0);
    if l < lbs.len() {
        balancer_path(lbs[l], remote_port, inventory.instances@)
    } else {
        None
    }
}

/// The path through the first load balancer that fronts the host, if a
/// target of it is reachable.
pub fn find_balancer_path(
    remote_port: Option<u16>,
    resolved: &[Address],
    inventory: &Inventory,
) -> (r: Option<TunnelTarget>)
    ensures
        match r {
            Some(path) => fronting_path(remote_port, resolved@, *inventory) == Some(path@),
            None => fronting_path(remote_port, resolved@, *inventory) is None,
        },
{
    let lbs = inventory.load_balancers.as_slice();
    let l = fronting_index(resolved, lbs);
    if l < lbs.len() {
        match resolve_via_load_balancer(&lbs[l], remote_port, inventory.instances.as_slice()) {
            Ok(path) => Some(path),
            Err(_) => None,
        }
    } else {
        None
    }
}

/// The resolution path of an input: direct instance, else load-balancer
/// target through its relay, else bastion relay, else `NoPathFound`.
pub open spec fn resolve_path(
    input: Seq<char>,
    remote_port: Option<u16>,
    resolved: Seq<Address>,
    inventory: Inventory,
) -> Result<TunnelTargetView, AppErrorView> {
    let instances = inventory.instances@;
    match direct_match(resolved, instances, 0) {
        Some(i) => Ok(
            TunnelTargetView::Ec2 { instance_id: instances[i].id@, name: instances[i].name@ },
        ),
        None => match fronting_path(remote_port, resolved, inventory) {
            Some(path) => Ok(path),
            None => bastion_path(input, resolved, instances),
        },
    }
}

/// Resolves a host or URL to the best reachable path, given what the host
/// resolves to and one snapshot of the inventory. `remote_port`, where
/// given, narrows the load balancer's targets to those on that port.
pub fn resolve_dns_to_target(
    input: &str,
    remote_port: Option<u16>,
    resolved: &[Address],
    inventory: &Inventory,
) -> (r: Result<TunnelTarget, AppError>)
    ensures
        match r {
            Ok(path) => resolve_path(input@, remote_port, resolved@, *inventory) == Ok::<
                TunnelTargetView,
                AppErrorView,
            >(path@),
            Err(e) => resolve_path(input@, remote_port, resolved@, *inventory) == Err::<
                TunnelTargetView,
                AppErrorView,
            >(e@),
        },
{
    let instances = inventory.instances.as_slice();
    match find_direct_match(resolved, instances) {
        Some(inst) => {
            return Ok(TunnelTarget::Ec2 { instance_id: inst.id.clone(), name: inst.name.clone() });
        },
        None => {},
    }
    match find_balancer_path(remote_port, resolved, inventory) {
        Some(path) => Ok(path),
        None => resolve_via_bastion(input, resolved, instances),
    }
}

/// A path that the load-balancer strategy gives always goes through a relay.
pub proof fn lemma_balancer_path_is_relay(
    remote_port: Option<u16>,
    resolved: Seq<Address>,
    inventory: Inventory,
)
    ensures
        fronting_path(remote_port, resolved, inventory) matches Some(path) ==> path
            is RemoteViaBastion,
{
}

} // verus!
