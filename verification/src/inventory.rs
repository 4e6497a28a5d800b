//! The inventory as the control plane reports it: how query results become
//! instances, how instances are found by name, and which command lines ask
//! the control plane.

use vstd::prelude::*;
use vstd::string::StringExecFns;
use crate::error::{AppError, AppErrorView};
use crate::models::{
    opt_text, ssm_status_of, state_of_name, texts, BastionInfo, BastionInfoView, Instance,
    InstanceState, InstanceView, RawInstance, SecurityGroup, SsmInstanceInfo, SsmStatus, Tag,
};
use crate::resolver::{bastion_like, is_bastion};
use crate::text::{chars_of, contains, is_substring, lowercase, str_eq};

verus! {

// ── From query results to instances ──────────────────────────────────────

/// The value of the first `Name` tag at or after `from`; empty without one.
pub open spec fn name_tag(tags: Seq<Tag>, from: int) -> Seq<char>
    decreases tags.len() - from,
{
    if from < 0 || from >= tags.len() {
        Seq::empty()
    } else if tags[from].key@ == "Name"@ {
        tags[from].value@
    } else {
        name_tag(tags, from + 1)
    }
}

/// The ping status that the last of the first `n` reports gives for `id`.
pub open spec fn ping_status(reports: Seq<SsmInstanceInfo>, id: Seq<char>, n: int) -> Option<
    Seq<char>,
>
    decreases n,
{
    if n <= 0 {
        None
    } else if reports[n - 1].instance_id@ == id {
        Some(reports[n - 1].ping_status@)
    } else {
        ping_status(reports, id, n - 1)
    }
}

pub open spec fn group_ids(groups: Seq<SecurityGroup>) -> Seq<Seq<char>> {
    Seq::new(groups.len(), |i: int| groups[i].group_id@)
}

pub open spec fn group_names(groups: Seq<SecurityGroup>) -> Seq<Seq<char>> {
    Seq::new(groups.len(), |i: int| groups[i].group_name@)
}

/// The instance that a raw description and the agents' reports give.
pub open spec fn instance_of(raw: RawInstance, reports: Seq<SsmInstanceInfo>) -> InstanceView {
    InstanceView {
        id: raw.instance_id@,
        name: match raw.tags {
            Some(tags) => name_tag(tags@, 0),
            None => Seq::empty(),
        },
        instance_type: raw.instance_type@,
        state: state_of_name(raw.state.name@),
        private_ip: opt_text(raw.private_ip),
        public_ip: opt_text(raw.public_ip),
        ssm_status: ssm_status_of(ping_status(reports, raw.instance_id@, reports.len() as int)),
        has_tunnel: false,
        security_groups: match raw.security_groups {
            Some(groups) => group_names(groups@),
            None => Seq::empty(),
        },
        security_group_ids: match raw.security_groups {
            Some(groups) => group_ids(groups@),
            None => Seq::empty(),
        },
    }
}

fn find_name_tag(tags: &Vec<Tag>) -> (name: String)
    ensures
        name@ == name_tag(tags@, 0),
{
    let mut i: usize = 0;
    while i < tags.len()
        invariant
            i <= tags.len(),
            name_tag(tags@, 0) == name_tag(tags@, i as int),
        decreases tags.len() - i,
    {
        if str_eq(tags[i].key.as_str(), "Name") {
            return tags[i].value.clone();
        }
        i += 1;
    }
    String::new()
}

/// The agent status that the reports give for an instance.
pub fn status_for(reports: &[SsmInstanceInfo], id: &str) -> (status: SsmStatus)
    ensures
        status == ssm_status_of(ping_status(reports@, id@, reports.len() as int)),
{
    let mut n: usize = reports.len();
    while n > 0
        invariant
            n <= reports.len(),
            ping_status(reports@, id@, reports.len() as int) == ping_status(
                reports@,
                id@,
                n as int,
            ),
        decreases n,
    {
        if str_eq(reports[n - 1].instance_id.as_str(), id) {
            let ping = reports[n - 1].ping_status.as_str();
            return if str_eq(ping, "Online") {
                SsmStatus::Online
            } else if str_eq(ping, "Offline") {
                SsmStatus::Offline
            } else {
                SsmStatus::Unknown
            };
        }
        n -= 1;
    }
    SsmStatus::Unknown
}

fn copy_text(o: &Option<String>) -> (r: Option<String>)
    ensures
        r == *o,
{
    match o {
        Some(s) => Some(s.clone()),
        None => None,
    }
}

/// Makes the instance of one raw description.
pub fn raw_to_instance(raw: &RawInstance, reports: &[SsmInstanceInfo]) -> (inst: Instance)
    ensures
        inst@ == instance_of(*raw, reports@),
{
    let name = match &raw.tags {
        Some(tags) => find_name_tag(tags),
        None => String::new(),
    };
    let mut ids: Vec<String> = Vec::new();
    let mut names: Vec<String> = Vec::new();
    match &raw.security_groups {
        Some(groups) => {
            let mut i: usize = 0;
            while i < groups.len()
                invariant
                    i <= groups.len(),
                    ids@.len() == i,
                    names@.len() == i,
                    forall|j: int| 0 <= j < i ==> (#[trigger] ids@[j])@ == groups@[j].group_id@,
                    forall|j: int| 0 <= j < i ==> (#[trigger] names@[j])@ == groups@[j].group_name@,
                decreases groups.len() - i,
            {
                ids.push(groups[i].group_id.clone());
                names.push(groups[i].group_name.clone());
                i += 1;
            }
            assert(texts(ids@) =~= group_ids(groups@));
            assert(texts(names@) =~= group_names(groups@));
        },
        None => {
            assert(texts(ids@) =~= Seq::<Seq<char>>::empty());
            assert(texts(names@) =~= Seq::<Seq<char>>::empty());
        },
    }
    Instance {
        id: raw.instance_id.clone(),
        name,
        instance_type: raw.instance_type.clone(),
        state: InstanceState::from_str(raw.state.name.as_str()),
        private_ip: copy_text(&raw.private_ip),
        public_ip: copy_text(&raw.public_ip),
        ssm_status: status_for(reports, raw.instance_id.as_str()),
        tunnel: None,
        security_groups: names,
        security_group_ids: ids,
    }
}

/// The views of a list of instances.
pub open spec fn instance_views(instances: Seq<Instance>) -> Seq<InstanceView> {
    Seq::new(instances.len(), |i: int| instances[i]@)
}

/// The instances of one reservation's first `n` raw descriptions.
pub open spec fn instances_in(raws: Seq<RawInstance>, reports: Seq<SsmInstanceInfo>, n: int) -> Seq<
    InstanceView,
>
    decreases n,
{
    if n <= 0 {
        Seq::empty()
    } else {
        instances_in(raws, reports, n - 1).push(instance_of(raws[n - 1], reports))
    }
}

/// The instances of the first `n` reservations, in order.
pub open spec fn instances_of(
    reservations: Seq<Vec<RawInstance>>,
    reports: Seq<SsmInstanceInfo>,
    n: int,
) -> Seq<InstanceView>
    decreases n,
{
    if n <= 0 {
        Seq::empty()
    } else {
        instances_of(reservations, reports, n - 1) + instances_in(
            reservations[n - 1]@,
            reports,
            reservations[n - 1]@.len() as int,
        )
    }
}

/// The inventory that the reservations and the agents' reports describe: one
/// instance per raw description, in the order of the reservations.
pub fn list_instances(reservations: &[Vec<RawInstance>], reports: &[SsmInstanceInfo]) -> (found:
    Vec<Instance>)
    ensures
        instance_views(found@) == instances_of(reservations@, reports@, reservations.len() as int),
{
    let mut found: Vec<Instance> = Vec::new();
    assert(instance_views(found@) =~= Seq::<InstanceView>::empty());
    let mut r: usize = 0;
    while r < reservations.len()
        invariant
            r <= reservations.len(),
            instance_views(found@) == instances_of(reservations@, reports@, r as int),
        decreases reservations.len() - r,
    {
        let raws = &reservations[r];
        let mut i: usize = 0;
        assert(instance_views(found@) =~= instances_of(reservations@, reports@, r as int)
            + instances_in(raws@, reports@, 0));
        while i < raws.len()
            invariant
                i <= raws.len(),
                r < reservations.len(),
                *raws == reservations@[r as int],
                instance_views(found@) == instances_of(reservations@, reports@, r as int)
                    + instances_in(raws@, reports@, i as int),
            decreases raws.len() - i,
        {
            let ghost before = instance_views(found@);
            let inst = raw_to_instance(&raws[i], reports);
            found.push(inst);
            assert(instance_views(found@) =~= before.push(instance_of(raws@[i as int], reports@)));
            assert(instance_views(found@) =~= instances_of(reservations@, reports@, r as int)
                + instances_in(raws@, reports@, i + 1));
            i += 1;
        }
        r += 1;
    }
    found
}

// ── Finding instances ────────────────────────────────────────────────────

/// The instance's name holds the pattern, whatever the case of either.
pub open spec fn name_matches(inst: Instance, pattern: Seq<char>) -> bool {
    is_substring(lowercase(inst.name@), lowercase(pattern))
}

/// How many of the first `n` instances match the pattern.
pub open spec fn count_matches(instances: Seq<Instance>, pattern: Seq<char>, n: int) -> nat
    decreases n,
{
    if n <= 0 {
        0
    } else if name_matches(instances[n - 1], pattern) {
        count_matches(instances, pattern, n - 1) + 1
    } else {
        count_matches(instances, pattern, n - 1)
    }
}

/// Index of the first instance at or after `from` that matches the pattern,
/// or the number of instances.
pub open spec fn first_named(instances: Seq<Instance>, pattern: Seq<char>, from: int) -> int
    decreases instances.len() - from,
{
    if from < 0 || from >= instances.len() {
        instances.len() as int
    } else if name_matches(instances[from], pattern) {
        from
    } else {
        first_named(instances, pattern, from + 1)
    }
}

/// The only instance whose name holds the pattern. `NoInstance` if none
/// does, `MultipleInstances` with their number if several do.
pub fn find_instance_by_name<'a>(pattern: &str, instances: &'a [Instance]) -> (r: Result<
    &'a Instance,
    AppError,
>)
    ensures
        match r {
            Ok(inst) => {
                let i = first_named(instances@, pattern@, 0);
                &&& count_matches(instances@, pattern@, instances.len() as int) == 1
                &&& 0 <= i < instances.len()
                &&& *inst == instances@[i]
            },
            Err(e) => {
                let n = count_matches(instances@, pattern@, instances.len() as int);
                &&& n != 1
                &&& n == 0 ==> e@ == AppErrorView::NoInstance(pattern@)
                &&& n > 1 ==> e@ == (AppErrorView::MultipleInstances {
                    pattern: pattern@,
                    matches: n as usize,
                })
            },
        },
{
    let lower = pattern.to_lowercase();
    let needle = chars_of(lower.as_str());
    let mut count: usize = 0;
    let mut first: usize = instances.len();
    let mut i: usize = 0;
    while i < instances.len()
        invariant
            i <= instances.len(),
            needle@ == lowercase(pattern@),
            count == count_matches(instances@, pattern@, i as int),
            count <= i,
            count == 0 ==> first == instances.len(),
            count == 0 ==> first_named(instances@, pattern@, 0) == first_named(
                instances@,
                pattern@,
                i as int,
            ),
            count > 0 ==> first == first_named(instances@, pattern@, 0) && first < i,
        decreases instances.len() - i,
    {
        let name = instances[i].name.as_str().to_lowercase();
        let hay = chars_of(name.as_str());
        if contains(&hay, &needle) {
            if count == 0 {
                first = i;
            }
            count += 1;
        }
        i += 1;
    }
    if count == 1 {
        Ok(&instances[first])
    } else if count == 0 {
        Err(AppError::NoInstance(String::from_str(pattern)))
    } else {
        Err(AppError::MultipleInstances { pattern: String::from_str(pattern), matches: count })
    }
}

/// The views of a list of bastions.
pub open spec fn bastion_views(bastions: Seq<BastionInfo>) -> Seq<BastionInfoView> {
    Seq::new(bastions.len(), |i: int| bastions[i]@)
}

/// The bastions among the first `n` instances, in order, each with whether
/// its connectivity agent is online.
pub open spec fn bastions_of(instances: Seq<Instance>, n: int) -> Seq<BastionInfoView>
    decreases n,
{
    if n <= 0 {
        Seq::empty()
    } else if is_bastion(instances[n - 1]) {
        bastions_of(instances, n - 1).push(
            BastionInfoView {
                id: instances[n - 1].id@,
                name: instances[n - 1].name@,
                ssm_online: instances[n - 1].ssm_status == SsmStatus::Online,
            },
        )
    } else {
        bastions_of(instances, n - 1)
    }
}

/// The running instances whose name holds `bastion`.
pub fn find_bastions(instances: &[Instance]) -> (found: Vec<BastionInfo>)
    ensures
        bastion_views(found@) == bastions_of(instances@, instances.len() as int),
{
    let mut found: Vec<BastionInfo> = Vec::new();
    assert(bastion_views(found@) =~= Seq::<BastionInfoView>::empty());
    let mut i: usize = 0;
    while i < instances.len()
        invariant
            i <= instances.len(),
            bastion_views(found@) == bastions_of(instances@, i as int),
        decreases instances.len() - i,
    {
        if bastion_like(&instances[i]) {
            let ghost before = bastion_views(found@);
            let ssm_online = match instances[i].ssm_status {
                SsmStatus::Online => true,
                _ => false,
            };
            let info = BastionInfo {
                id: instances[i].id.clone(),
                name: instances[i].name.clone(),
                ssm_online,
            };
            found.push(info);
            assert(bastion_views(found@) =~= before.push(info@));
        }
        i += 1;
    }
    found
}

} // verus!
