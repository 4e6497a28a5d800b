//! What holds of the path resolver on every input.

use vstd::prelude::*;
use crate::error::AppErrorView;
use crate::models::{Address, Instance, Inventory, LoadBalancerTarget, TargetGroup, TunnelTargetView};
use crate::resolver::{
    allowed_sources, balancer_path, direct_match, first_fronting, first_online_bastion,
    first_reachable_group, first_reachable_in, first_with_address, forward_host, fronting_path,
    fronts, has_address, has_reachable, host_of, is_hop, is_online_bastion, is_reachable,
    lemma_first_fronting, lemma_first_hop, relay_for, relay_path, resolve_path, scheme_port,
};

verus! {

/// What `first_with_address` returns owns the address, and no instance
/// before it does.
pub proof fn lemma_first_with_address(instances: Seq<Instance>, addr: Seq<char>, from: int)
    requires
        0 <= from <= instances.len(),
    ensures
        from <= first_with_address(instances, addr, from) <= instances.len(),
        first_with_address(instances, addr, from) < instances.len() ==> has_address(
            instances[first_with_address(instances, addr, from)],
            addr,
        ),
        forall|j: int|
            from <= j < first_with_address(instances, addr, from) ==> !has_address(
                #[trigger] instances[j],
                addr,
            ),
    decreases instances.len() - from,
{
    if from < instances.len() && !has_address(instances[from], addr) {
        lemma_first_with_address(instances, addr, from + 1);
    }
}

/// The address whose owner `direct_match` picks: the first at or after
/// `from` that any instance owns, or the number of addresses.
pub open spec fn first_owned(addrs: Seq<Address>, instances: Seq<Instance>, from: int) -> int
    decreases addrs.len() - from,
{
    if from < 0 || from >= addrs.len() {
        addrs.len() as int
    } else if first_with_address(instances, addrs[from].text@, 0) < instances.len() {
        from
    } else {
        first_owned(addrs, instances, from + 1)
    }
}

/// `direct_match` picks the first owner of the first owned address.
pub proof fn lemma_direct_match(addrs: Seq<Address>, instances: Seq<Instance>, from: int)
    requires
        0 <= from <= addrs.len(),
    ensures
        from <= first_owned(addrs, instances, from) <= addrs.len(),
        forall|b: int, j: int|
            from <= b < first_owned(addrs, instances, from) && 0 <= j < instances.len()
                ==> !has_address(#[trigger] instances[j], #[trigger] addrs[b].text@),
        first_owned(addrs, instances, from) == addrs.len() ==> direct_match(addrs, instances, from)
            is None,
        first_owned(addrs, instances, from) < addrs.len() ==> {
            let b = first_owned(addrs, instances, from);
            let k = first_with_address(instances, addrs[b].text@, 0);
            &&& direct_match(addrs, instances, from) == Some(k)
            &&& 0 <= k < instances.len()
            &&& has_address(instances[k], addrs[b].text@)
            &&& forall|j: int| 0 <= j < k ==> !has_address(#[trigger] instances[j], addrs[b].text@)
        },
    decreases addrs.len() - from,
{
    if from < addrs.len() {
        lemma_first_with_address(instances, addrs[from].text@, 0);
        if first_with_address(instances, addrs[from].text@, 0) >= instances.len() {
            lemma_direct_match(addrs, instances, from + 1);
        }
    }
}

/// Whenever a resolved address is the private address of a known instance,
/// the path is `Ec2` and names an instance that owns a resolved address,
/// whatever load balancers and bastions the inventory holds: the first owner
/// of the first owned address. Where only one instance owns any resolved
/// address, it is that instance.
pub proof fn law_direct_instance_wins(
    input: Seq<char>,
    remote_port: Option<u16>,
    resolved: Seq<Address>,
    inventory: Inventory,
    a: int,
    i: int,
)
    requires
        0 <= a < resolved.len(),
        0 <= i < inventory.instances@.len(),
        inventory.instances@[i].private_ip matches Some(ip) && ip@ == resolved[a].text@,
    ensures
        ({
            let instances = inventory.instances@;
            let b = first_owned(resolved, instances, 0);
            let k = first_with_address(instances, resolved[b].text@, 0);
            &&& 0 <= b <= a
            &&& 0 <= k < instances.len()
            &&& b == a ==> k <= i
            &&& has_address(instances[k], resolved[b].text@)
            &&& resolve_path(input, remote_port, resolved, inventory) == Ok::<
                TunnelTargetView,
                AppErrorView,
            >(TunnelTargetView::Ec2 { instance_id: instances[k].id@, name: instances[k].name@ })
            &&& (forall|c: int, j: int|
                0 <= c < resolved.len() && 0 <= j < instances.len() && has_address(
                    #[trigger] instances[j],
                    #[trigger] resolved[c].text@,
                ) ==> j == i) ==> k == i
        }),
{
    let instances = inventory.instances@;
    lemma_direct_match(resolved, instances, 0);
    let b = first_owned(resolved, instances, 0);
    assert(has_address(instances[i], resolved[a].text@));
    if b > a {
        assert(!has_address(instances[i], resolved[a].text@));
    }
    let k = first_with_address(instances, resolved[b].text@, 0);
    if b == a && k > i {
        assert(!has_address(instances[i], resolved[b].text@));
    }
}

/// What `first_reachable_in` returns is reachable, and no target before it is.
pub proof fn lemma_first_reachable_in(
    targets: Seq<LoadBalancerTarget>,
    remote_port: Option<u16>,
    instances: Seq<Instance>,
    from: int,
)
    requires
        0 <= from <= targets.len(),
    ensures
        from <= first_reachable_in(targets, remote_port, instances, from) <= targets.len(),
        first_reachable_in(targets, remote_port, instances, from) < targets.len() ==> is_reachable(
            targets[first_reachable_in(targets, remote_port, instances, from)],
            remote_port,
            instances,
        ),
        forall|j: int|
            from <= j < first_reachable_in(targets, remote_port, instances, from) ==> !is_reachable(
                #[trigger] targets[j],
                remote_port,
                instances,
            ),
    decreases targets.len() - from,
{
    if from < targets.len() && !is_reachable(targets[from], remote_port, instances) {
        lemma_first_reachable_in(targets, remote_port, instances, from + 1);
    }
}

/// What `first_reachable_group` returns has a reachable target, and no group
/// before it has one.
pub proof fn lemma_first_reachable_group(
    groups: Seq<TargetGroup>,
    remote_port: Option<u16>,
    instances: Seq<Instance>,
    from: int,
)
    requires
        0 <= from <= groups.len(),
    ensures
        from <= first_reachable_group(groups, remote_port, instances, from) <= groups.len(),
        first_reachable_group(groups, remote_port, instances, from) < groups.len()
            ==> has_reachable(
            groups[first_reachable_group(groups, remote_port, instances, from)],
            remote_port,
            instances,
        ),
        forall|j: int|
            from <= j < first_reachable_group(groups, remote_port, instances, from)
                ==> !has_reachable(#[trigger] groups[j], remote_port, instances),
    decreases groups.len() - from,
{
    if from < groups.len() && !has_reachable(groups[from], remote_port, instances) {
        lemma_first_reachable_group(groups, remote_port, instances, from + 1);
    }
}

/// Where no instance owns a resolved address, a load balancer fronts the
/// host, and a healthy target of the first such load balancer is reachable
/// through a permitted, connected relay, the path goes to the first such
/// target in target-group enumeration order, through the first relay that
/// may reach it, and never to a later target.
pub proof fn law_first_reachable_target_wins(
    input: Seq<char>,
    remote_port: Option<u16>,
    resolved: Seq<Address>,
    inventory: Inventory,
    g: int,
    t: int,
)
    requires
        forall|a: int, i: int|
            0 <= a < resolved.len() && 0 <= i < inventory.instances@.len() ==> !has_address(
                #[trigger] inventory.instances@[i],
                #[trigger] resolved[a].text@,
            ),
        first_fronting(inventory.load_balancers@, resolved, 0) < inventory.load_balancers@.len(),
        ({
            let lb = inventory.load_balancers@[first_fronting(
                inventory.load_balancers@,
                resolved,
                0,
            )];
            &&& 0 <= g < lb.target_groups@.len()
            &&& 0 <= t < lb.target_groups@[g].targets@.len()
            &&& is_reachable(lb.target_groups@[g].targets@[t], remote_port, inventory.instances@)
        }),
    ensures
        ({
            let instances = inventory.instances@;
            let lb = inventory.load_balancers@[first_fronting(
                inventory.load_balancers@,
                resolved,
                0,
            )];
            let groups = lb.target_groups@;
            let g0 = first_reachable_group(groups, remote_port, instances, 0);
            let t0 = first_reachable_in(groups[g0].targets@, remote_port, instances, 0);
            let target = groups[g0].targets@[t0];
            let hop = relay_for(target, instances);
            &&& fronts(lb, resolved)
            &&& 0 <= g0 <= g
            &&& 0 <= t0 < groups[g0].targets@.len()
            &&& g0 == g ==> t0 <= t
            &&& is_reachable(target, remote_port, instances)
            &&& forall|g1: int, t1: int|
                0 <= g1 < g0 && 0 <= t1 < groups[g1].targets@.len() ==> !is_reachable(
                    #[trigger] groups[g1].targets@[t1],
                    remote_port,
                    instances,
                )
            &&& forall|t1: int|
                0 <= t1 < t0 ==> !is_reachable(
                    #[trigger] groups[g0].targets@[t1],
                    remote_port,
                    instances,
                )
            &&& 0 <= hop < instances.len()
            &&& is_hop(
                instances[hop],
                allowed_sources(target.rules@, target.port, target.rules@.len() as int),
            )
            &&& resolve_path(input, remote_port, resolved, inventory) == Ok::<
                TunnelTargetView,
                AppErrorView,
            >(
                TunnelTargetView::RemoteViaBastion {
                    bastion_id: instances[hop].id@,
                    bastion_name: instances[hop].name@,
                    target_host: target.id@,
                    target_port: target.port,
                },
            )
        }),
{
    let instances = inventory.instances@;
    let lbs = inventory.load_balancers@;
    lemma_direct_match(resolved, instances, 0);
    let b = first_owned(resolved, instances, 0);
    if b < resolved.len() {
        let k = first_with_address(instances, resolved[b].text@, 0);
        assert(has_address(instances[k], resolved[b].text@));
        assert(false);
    }
    lemma_first_fronting(lbs, resolved, 0);
    let lb = lbs[first_fronting(lbs, resolved, 0)];
    let groups = lb.target_groups@;
    lemma_first_reachable_group(groups, remote_port, instances, 0);
    let g0 = first_reachable_group(groups, remote_port, instances, 0);
    lemma_first_reachable_in(groups[g].targets@, remote_port, instances, 0);
    if g0 > g {
        assert(!has_reachable(groups[g], remote_port, instances));
        assert(false);
    }
    lemma_first_reachable_in(groups[g0].targets@, remote_port, instances, 0);
    let t0 = first_reachable_in(groups[g0].targets@, remote_port, instances, 0);
    assert forall|g1: int, t1: int|
        0 <= g1 < g0 && 0 <= t1 < groups[g1].targets@.len() implies !is_reachable(
        #[trigger] groups[g1].targets@[t1],
        remote_port,
        instances,
    ) by {
        lemma_first_reachable_in(groups[g1].targets@, remote_port, instances, 0);
        assert(!has_reachable(groups[g1], remote_port, instances));
    }
    let target = groups[g0].targets@[t0];
    lemma_first_hop(
        instances,
        allowed_sources(target.rules@, target.port, target.rules@.len() as int),
        0,
    );
    assert(balancer_path(lb, remote_port, instances) == Some(relay_path(target, instances)));
}

/// What `first_online_bastion` returns is an online bastion, and no instance
/// before it is one.
pub proof fn lemma_first_online_bastion(instances: Seq<Instance>, from: int)
    requires
        0 <= from <= instances.len(),
    ensures
        from <= first_online_bastion(instances, from) <= instances.len(),
        first_online_bastion(instances, from) < instances.len() ==> is_online_bastion(
            instances[first_online_bastion(instances, from)],
        ),
        forall|j: int|
            from <= j < first_online_bastion(instances, from) ==> !is_online_bastion(
                #[trigger] instances[j],
            ),
    decreases instances.len() - from,
{
    if from < instances.len() && !is_online_bastion(instances[from]) {
        lemma_first_online_bastion(instances, from + 1);
    }
}

/// Where no instance owns a resolved address and the load-balancer strategy
/// gives no path: if a bastion is online, the path is `RemoteViaBastion`
/// through the first online bastion, to the first resolved address or else
/// to the host by name, on the port of the input's scheme; if none is
/// online, resolution fails with `NoPathFound`.
pub proof fn law_bastion_fallback(
    input: Seq<char>,
    remote_port: Option<u16>,
    resolved: Seq<Address>,
    inventory: Inventory,
)
    requires
        forall|a: int, i: int|
            0 <= a < resolved.len() && 0 <= i < inventory.instances@.len() ==> !has_address(
                #[trigger] inventory.instances@[i],
                #[trigger] resolved[a].text@,
            ),
        fronting_path(remote_port, resolved, inventory) is None,
    ensures
        ({
            let instances = inventory.instances@;
            let b = first_online_bastion(instances, 0);
            &&& (exists|i: int| 0 <= i < instances.len() && is_online_bastion(instances[i])) ==> {
                &&& 0 <= b < instances.len()
                &&& is_online_bastion(instances[b])
                &&& forall|j: int| 0 <= j < b ==> !is_online_bastion(#[trigger] instances[j])
                &&& resolve_path(input, remote_port, resolved, inventory) == Ok::<
                    TunnelTargetView,
                    AppErrorView,
                >(
                    TunnelTargetView::RemoteViaBastion {
                        bastion_id: instances[b].id@,
                        bastion_name: instances[b].name@,
                        target_host: forward_host(input, resolved),
                        target_port: scheme_port(input),
                    },
                )
            }
            &&& (forall|i: int| 0 <= i < instances.len() ==> !is_online_bastion(instances[i]))
                ==> resolve_path(input, remote_port, resolved, inventory) == Err::<
                TunnelTargetView,
                AppErrorView,
            >(AppErrorView::NoPathFound { host: host_of(input) })
        }),
{
    let instances = inventory.instances@;
    lemma_direct_match(resolved, instances, 0);
    let o = first_owned(resolved, instances, 0);
    if o < resolved.len() {
        let k = first_with_address(instances, resolved[o].text@, 0);
        assert(has_address(instances[k], resolved[o].text@));
        assert(false);
    }
    lemma_first_online_bastion(instances, 0);
    let b = first_online_bastion(instances, 0);
    if exists|i: int| 0 <= i < instances.len() && is_online_bastion(instances[i]) {
        let i = choose|i: int| 0 <= i < instances.len() && is_online_bastion(instances[i]);
        if b >= instances.len() {
            assert(!is_online_bastion(instances[i]));
        }
    }
    if b < instances.len() {
        assert(is_online_bastion(instances[b]));
    }
}

/// Where no load balancer fronts the host, the load-balancer strategy gives
/// no path.
pub proof fn law_no_balancer_no_balancer_path(
    remote_port: Option<u16>,
    resolved: Seq<Address>,
    inventory: Inventory,
)
    requires
        forall|l: int|
            0 <= l < inventory.load_balancers@.len() ==> !fronts(
                #[trigger] inventory.load_balancers@[l],
                resolved,
            ),
    ensures
        fronting_path(remote_port, resolved, inventory) is None,
{
    lemma_first_fronting(inventory.load_balancers@, resolved, 0);
}

} // verus!
