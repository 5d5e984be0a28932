//! Pruning the database to the configuration: which stored hosts, services, groups, links
//! and checks the configuration no longer names.

use vstd::prelude::*;
use crate::config::{Configuration, LOCAL_SERVICE_HOST_NAME, config_group};
use crate::errors::MaremmaError;
use crate::text::{push_str, str_eq, views};

verus! {

/// The ID stored for `name`: that of the last row with the name.
pub open spec fn id_for(rows: Seq<(String, u128)>, name: Seq<char>) -> Option<u128>
    decreases rows.len(),
{
    if rows.len() == 0 {
        None
    } else if rows.last().0@ == name {
        Some(rows.last().1)
    } else {
        id_for(rows.drop_last(), name)
    }
}

/// Finds the ID stored for `name`; see [`id_for`].
pub fn find_id(rows: &Vec<(String, u128)>, name: &str) -> (r: Option<u128>)
    ensures
        r == id_for(rows@, name@),
{
    let mut i: usize = rows.len();
    proof {
        assert(rows@.take(rows@.len() as int) =~= rows@);
    }
    while i > 0
        invariant
            i <= rows@.len(),
            id_for(rows@, name@) == id_for(rows@.take(i as int), name@),
        decreases i,
    {
        let k = i - 1;
        proof {
            assert(rows@.take(i as int).drop_last() =~= rows@.take(k as int));
            assert(rows@.take(i as int).last() == rows@[k as int]);
        }
        if str_eq(rows[k].0.as_str(), name) {
            return Some(rows[k].1);
        }
        i = k;
    }
    None
}

/// The groups the configuration gives a host, as texts.
pub open spec fn host_groups_of(c: &Configuration, a: int) -> Seq<Seq<char>> {
    views(c.hosts@[a].1.host_groups@)
}

/// The groups the configuration gives a service, as texts.
pub open spec fn service_groups_of(c: &Configuration, s: int) -> Seq<Seq<char>> {
    views(c.services@[s].1.host_groups@)
}

/// Can every name the configuration uses be found among the stored rows? Every host and
/// the groups it is in, every service and the groups it applies to, and, where there are
/// local services, the local host and those services.
pub open spec fn names_stored(c: &Configuration, hosts: Seq<(String, u128)>, services: Seq<(String, u128)>, groups: Seq<(String, u128)>) -> bool {
    &&& forall|a: int| 0 <= a < c.hosts@.len() ==> #[trigger] id_for(hosts, c.hosts@[a].0@) is Some
    &&& forall|a: int, b: int|
        0 <= a < c.hosts@.len() && 0 <= b < host_groups_of(c, a).len() ==> #[trigger] id_for(groups, host_groups_of(c, a)[b]) is Some
    &&& forall|s: int| 0 <= s < c.services@.len() ==> #[trigger] id_for(services, c.services@[s].0@) is Some
    &&& forall|s: int, b: int|
        0 <= s < c.services@.len() && 0 <= b < service_groups_of(c, s).len() ==> #[trigger] id_for(groups, service_groups_of(c, s)[b]) is Some
    &&& c.local_services.services@.len() > 0 ==> id_for(hosts, LOCAL_SERVICE_HOST_NAME@) is Some
    &&& forall|n: int|
        0 <= n < c.local_services.services@.len() ==> #[trigger] id_for(services, c.local_services.services@[n]@) is Some
}

/// Is `e` the error for one of the names that cannot be found?
pub open spec fn missing_name_error(c: &Configuration, hosts: Seq<(String, u128)>, services: Seq<(String, u128)>, groups: Seq<(String, u128)>, e: MaremmaError) -> bool {
    ||| exists|a: int|
        0 <= a < c.hosts@.len() && #[trigger] id_for(hosts, c.hosts@[a].0@) is None && (e matches MaremmaError::Configuration(m)
            && m@ == "Host '"@ + c.hosts@[a].0@ + "' was not stored while reconciling configuration"@)
    ||| exists|a: int, b: int|
        0 <= a < c.hosts@.len() && 0 <= b < host_groups_of(c, a).len() && #[trigger] id_for(groups, host_groups_of(c, a)[b]) is None
            && (e matches MaremmaError::HostGroupNotFoundByName(g) && g@ == host_groups_of(c, a)[b])
    ||| exists|s: int|
        0 <= s < c.services@.len() && #[trigger] id_for(services, c.services@[s].0@) is None && (e matches MaremmaError::ServiceNotFoundByName(n)
            && n@ == c.services@[s].0@)
    ||| exists|s: int, b: int|
        0 <= s < c.services@.len() && 0 <= b < service_groups_of(c, s).len() && #[trigger] id_for(groups, service_groups_of(c, s)[b]) is None
            && (e matches MaremmaError::HostGroupNotFoundByName(g) && g@ == service_groups_of(c, s)[b])
    ||| c.local_services.services@.len() > 0 && id_for(hosts, LOCAL_SERVICE_HOST_NAME@) is None && (e matches MaremmaError::Configuration(m)
            && m@ == "Local service host was not stored"@)
    ||| exists|n: int|
        0 <= n < c.local_services.services@.len() && #[trigger] id_for(services, c.local_services.services@[n]@) is None
            && (e matches MaremmaError::ServiceNotFoundByName(x) && x@ == c.local_services.services@[n]@)
}

/// Does the configuration make a host a member of a group?
pub open spec fn is_membership(c: &Configuration, hosts: Seq<(String, u128)>, groups: Seq<(String, u128)>, host_id: u128, group_id: u128) -> bool {
    exists|a: int, b: int|
        0 <= a < c.hosts@.len() && 0 <= b < host_groups_of(c, a).len() && #[trigger] id_for(hosts, c.hosts@[a].0@)
            == Some(host_id) && #[trigger] id_for(groups, host_groups_of(c, a)[b]) == Some(group_id)
}

/// Does the configuration apply a service to a group?
pub open spec fn is_service_link(c: &Configuration, services: Seq<(String, u128)>, groups: Seq<(String, u128)>, service_id: u128, group_id: u128) -> bool {
    exists|s: int, b: int|
        0 <= s < c.services@.len() && 0 <= b < service_groups_of(c, s).len() && #[trigger] id_for(services, c.services@[s].0@)
            == Some(service_id) && #[trigger] id_for(groups, service_groups_of(c, s)[b]) == Some(group_id)
}

/// Does the configuration check a service on a host? It does when the service applies to
/// a group the host is in, and for each local service on the local host.
pub open spec fn is_configured_check(c: &Configuration, hosts: Seq<(String, u128)>, services: Seq<(String, u128)>, host_id: u128, service_id: u128) -> bool {
    ||| exists|s: int, b: int, a: int|
        0 <= s < c.services@.len() && 0 <= b < service_groups_of(c, s).len() && 0 <= a < c.hosts@.len()
            && #[trigger] host_groups_of(c, a).contains(service_groups_of(c, s)[b]) && #[trigger] id_for(services, c.services@[s].0@)
            == Some(service_id) && #[trigger] id_for(hosts, c.hosts@[a].0@) == Some(host_id)
    ||| exists|n: int|
        0 <= n < c.local_services.services@.len() && id_for(hosts, LOCAL_SERVICE_HOST_NAME@) == Some(host_id)
            && #[trigger] id_for(services, c.local_services.services@[n]@) == Some(service_id)
}

/// The IDs whose rows are not kept, in order.
pub open spec fn unkept(ids: Seq<u128>, keep: Seq<bool>) -> Seq<u128>
    decreases ids.len(),
{
    if ids.len() == 0 || keep.len() != ids.len() {
        Seq::empty()
    } else {
        unkept(ids.drop_last(), keep.drop_last()) + if keep.last() {
            Seq::empty()
        } else {
            seq![ids.last()]
        }
    }
}

/// A row is pruned exactly when some row with its ID is not kept: nothing that is kept
/// under every one of its IDs is removed, and nothing that is dropped survives.
pub proof fn pruned_rows_are_exactly_the_dropped(ids: Seq<u128>, keep: Seq<bool>, x: u128)
    requires
        ids.len() == keep.len(),
    ensures
        unkept(ids, keep).contains(x) <==> exists|i: int| 0 <= i < ids.len() && ids[i] == x && !keep[i],
    decreases ids.len(),
{
    if ids.len() > 0 {
        let (a, b) = (ids.drop_last(), keep.drop_last());
        pruned_rows_are_exactly_the_dropped(a, b, x);
        let last = ids.len() - 1;
        let tail: Seq<u128> = if keep.last() { Seq::empty() } else { seq![ids.last()] };
        assert(unkept(ids, keep) == unkept(a, b) + tail);
        if unkept(ids, keep).contains(x) {
            let k = choose|k: int| 0 <= k < unkept(ids, keep).len() && unkept(ids, keep)[k] == x;
            if k < unkept(a, b).len() {
                assert(unkept(a, b)[k] == x);
                let i = choose|i: int| 0 <= i < a.len() && a[i] == x && !b[i];
                assert(ids[i] == x && !keep[i]);
            } else {
                assert(ids[last] == x && !keep[last]);
            }
        }
        if exists|i: int| 0 <= i < ids.len() && ids[i] == x && !keep[i] {
            let i = choose|i: int| 0 <= i < ids.len() && ids[i] == x && !keep[i];
            if i < last {
                assert(a[i] == x && !b[i]);
                let k = choose|k: int| 0 <= k < unkept(a, b).len() && unkept(a, b)[k] == x;
                assert((unkept(a, b) + tail)[k] == x);
            } else {
                assert((unkept(a, b) + tail)[unkept(a, b).len() as int] == x);
            }
        }
    }
}

/// Where every row is kept, nothing is pruned; so pruning to an unchanged configuration a
/// second time, when every row left is one it makes, removes nothing.
pub proof fn nothing_pruned_when_all_kept(ids: Seq<u128>, keep: Seq<bool>)
    requires
        ids.len() == keep.len(),
        forall|i: int| 0 <= i < keep.len() ==> keep[i],
    ensures
        unkept(ids, keep).len() == 0,
{
    if unkept(ids, keep).len() > 0 {
        let x = unkept(ids, keep)[0];
        assert(unkept(ids, keep).contains(x));
        pruned_rows_are_exactly_the_dropped(ids, keep, x);
    }
}

fn drop_kept(ids: &Vec<u128>, keep: &Vec<bool>) -> (r: Vec<u128>)
    requires
        ids@.len() == keep@.len(),
    ensures
        r@ == unkept(ids@, keep@),
{
    let mut out: Vec<u128> = Vec::new();
    let mut i: usize = 0;
    while i < ids.len()
        invariant
            ids@.len() == keep@.len(),
            i <= ids@.len(),
            out@ == unkept(ids@.take(i as int), keep@.take(i as int)),
        decreases ids@.len() - i,
    {
        proof {
            assert(ids@.take(i + 1).drop_last() =~= ids@.take(i as int));
            assert(keep@.take(i + 1).drop_last() =~= keep@.take(i as int));
        }
        if !keep[i] {
            out.push(ids[i]);
        }
        proof {
            assert(out@ =~= unkept(ids@.take(i + 1), keep@.take(i + 1)));
        }
        i += 1;
    }
    proof {
        assert(ids@.take(i as int) =~= ids@);
        assert(keep@.take(i as int) =~= keep@);
    }
    out
}

fn contains_text(v: &Vec<String>, t: &str) -> (r: bool)
    ensures
        r == views(v@).contains(t@),
{
    let mut i: usize = 0;
    while i < v.len()
        invariant
            i <= v@.len(),
            forall|j: int| 0 <= j < i ==> v@[j]@ != t@,
        decreases v@.len() - i,
    {
        if str_eq(v[i].as_str(), t) {
            proof {
                assert(views(v@)[i as int] == t@);
            }
            return true;
        }
        i += 1;
    }
    proof {
        if views(v@).contains(t@) {
            let k = choose|k: int| 0 <= k < views(v@).len() && views(v@)[k] == t@;
            assert(v@[k]@ == t@);
        }
    }
    false
}

fn host_named(c: &Configuration, name: &str) -> (r: bool)
    ensures
        r == exists|a: int| 0 <= a < c.hosts@.len() && #[trigger] c.hosts@[a].0@ == name@,
{
    let mut a: usize = 0;
    while a < c.hosts.len()
        invariant
            a <= c.hosts@.len(),
            forall|j: int| 0 <= j < a ==> c.hosts@[j].0@ != name@,
        decreases c.hosts@.len() - a,
    {
        if str_eq(c.hosts[a].0.as_str(), name) {
            return true;
        }
        a += 1;
    }
    false
}

fn service_named(c: &Configuration, name: &str) -> (r: bool)
    ensures
        r == exists|s: int| 0 <= s < c.services@.len() && #[trigger] c.services@[s].0@ == name@,
{
    let mut s: usize = 0;
    while s < c.services.len()
        invariant
            s <= c.services@.len(),
            forall|j: int| 0 <= j < s ==> c.services@[j].0@ != name@,
        decreases c.services@.len() - s,
    {
        if str_eq(c.services[s].0.as_str(), name) {
            return true;
        }
        s += 1;
    }
    false
}

/// What is stale in the database.
#[derive(Debug)]
pub struct PrunePlan {
    /// Checks no longer configured
    pub checks: Vec<u128>,
    /// Links of services to groups no longer configured
    pub service_links: Vec<u128>,
    /// Memberships of hosts in groups no longer configured
    pub memberships: Vec<u128>,
    /// Hosts no longer configured
    pub hosts: Vec<u128>,
    /// Services no longer configured
    pub services: Vec<u128>,
    /// Groups no longer named
    pub groups: Vec<u128>,
}

fn validate_names(c: &Configuration, hosts: &Vec<(String, u128)>, services: &Vec<(String, u128)>, groups: &Vec<(String, u128)>) -> (r: Result<(), MaremmaError>)
    ensures
        r is Ok <==> names_stored(c, hosts@, services@, groups@),
        r matches Err(e) ==> missing_name_error(c, hosts@, services@, groups@, e),
{
    let mut a: usize = 0;
    while a < c.hosts.len()
        invariant
            a <= c.hosts@.len(),
            forall|x: int| 0 <= x < a ==> #[trigger] id_for(hosts@, c.hosts@[x].0@) is Some,
            forall|x: int, b: int|
                0 <= x < a && 0 <= b < host_groups_of(c, x).len() ==> #[trigger] id_for(groups@, host_groups_of(c, x)[b]) is Some,
        decreases c.hosts@.len() - a,
    {
        let name = &c.hosts[a].0;
        if find_id(hosts, name.as_str()).is_none() {
            let mut m = String::new();
            push_str(&mut m, "Host '");
            push_str(&mut m, name.as_str());
            push_str(&mut m, "' was not stored while reconciling configuration");
            proof {
                assert(id_for(hosts@, c.hosts@[a as int].0@) is None);
            }
            return Err(MaremmaError::Configuration(m));
        }
        let hg = &c.hosts[a].1.host_groups;
        let mut b: usize = 0;
        while b < hg.len()
            invariant
                a < c.hosts@.len(),
                hg == c.hosts@[a as int].1.host_groups,
                b <= hg@.len(),
                forall|y: int| 0 <= y < b ==> #[trigger] id_for(groups@, host_groups_of(c, a as int)[y]) is Some,
            decreases hg@.len() - b,
        {
            if find_id(groups, hg[b].as_str()).is_none() {
                proof {
                    assert(host_groups_of(c, a as int)[b as int] == hg@[b as int]@);
                }
                return Err(MaremmaError::HostGroupNotFoundByName(hg[b].clone()));
            }
            proof {
                assert(host_groups_of(c, a as int)[b as int] == hg@[b as int]@);
            }
            b += 1;
        }
        a += 1;
    }
    let mut sv: usize = 0;
    while sv < c.services.len()
        invariant
            sv <= c.services@.len(),
            forall|x: int| 0 <= x < c.hosts@.len() ==> #[trigger] id_for(hosts@, c.hosts@[x].0@) is Some,
            forall|x: int, b: int|
                0 <= x < c.hosts@.len() && 0 <= b < host_groups_of(c, x).len() ==> #[trigger] id_for(groups@, host_groups_of(c, x)[b]) is Some,
            forall|x: int| 0 <= x < sv ==> #[trigger] id_for(services@, c.services@[x].0@) is Some,
            forall|x: int, b: int|
                0 <= x < sv && 0 <= b < service_groups_of(c, x).len() ==> #[trigger] id_for(groups@, service_groups_of(c, x)[b]) is Some,
        decreases c.services@.len() - sv,
    {
        let name = &c.services[sv].0;
        if find_id(services, name.as_str()).is_none() {
            proof {
                assert(id_for(services@, c.services@[sv as int].0@) is None);
            }
            return Err(MaremmaError::ServiceNotFoundByName(name.clone()));
        }
        let sg = &c.services[sv].1.host_groups;
        let mut b: usize = 0;
        while b < sg.len()
            invariant
                sv < c.services@.len(),
                sg == c.services@[sv as int].1.host_groups,
                b <= sg@.len(),
                forall|y: int| 0 <= y < b ==> #[trigger] id_for(groups@, service_groups_of(c, sv as int)[y]) is Some,
            decreases sg@.len() - b,
        {
            if find_id(groups, sg[b].as_str()).is_none() {
                proof {
                    assert(service_groups_of(c, sv as int)[b as int] == sg@[b as int]@);
                }
                return Err(MaremmaError::HostGroupNotFoundByName(sg[b].clone()));
            }
            proof {
                assert(service_groups_of(c, sv as int)[b as int] == sg@[b as int]@);
            }
            b += 1;
        }
        sv += 1;
    }
    let locals = &c.local_services.services;
    let mut n: usize = 0;
    while n < locals.len()
        invariant
            locals == c.local_services.services,
            n <= locals@.len(),
            n > 0 ==> id_for(hosts@, LOCAL_SERVICE_HOST_NAME@) is Some,
            forall|x: int| 0 <= x < c.hosts@.len() ==> #[trigger] id_for(hosts@, c.hosts@[x].0@) is Some,
            forall|x: int, b: int|
                0 <= x < c.hosts@.len() && 0 <= b < host_groups_of(c, x).len() ==> #[trigger] id_for(groups@, host_groups_of(c, x)[b]) is Some,
            forall|x: int| 0 <= x < c.services@.len() ==> #[trigger] id_for(services@, c.services@[x].0@) is Some,
            forall|x: int, b: int|
                0 <= x < c.services@.len() && 0 <= b < service_groups_of(c, x).len() ==> #[trigger] id_for(groups@, service_groups_of(c, x)[b]) is Some,
            forall|x: int| 0 <= x < n ==> #[trigger] id_for(services@, locals@[x]@) is Some,
        decreases locals@.len() - n,
    {
        if find_id(hosts, LOCAL_SERVICE_HOST_NAME).is_none() {
            return Err(MaremmaError::Configuration("Local service host was not stored".to_owned()));
        }
        if find_id(services, locals[n].as_str()).is_none() {
            proof {
                assert(id_for(services@, c.local_services.services@[n as int]@) is None);
            }
            return Err(MaremmaError::ServiceNotFoundByName(locals[n].clone()));
        }
        n += 1;
    }
    Ok(())
}

fn membership_configured(c: &Configuration, hosts: &Vec<(String, u128)>, groups: &Vec<(String, u128)>, host_id: u128, group_id: u128) -> (r: bool)
    ensures
        r == is_membership(c, hosts@, groups@, host_id, group_id),
{
    let mut a: usize = 0;
    while a < c.hosts.len()
        invariant
            a <= c.hosts@.len(),
            forall|x: int, b: int|
                0 <= x < a && 0 <= b < host_groups_of(c, x).len() ==> !(#[trigger] id_for(hosts@, c.hosts@[x].0@)
                    == Some(host_id) && #[trigger] id_for(groups@, host_groups_of(c, x)[b]) == Some(group_id)),
        decreases c.hosts@.len() - a,
    {
        let hid = find_id(hosts, c.hosts[a].0.as_str());
        let hg = &c.hosts[a].1.host_groups;
        let mut b: usize = 0;
        while b < hg.len()
            invariant
                a < c.hosts@.len(),
                hg == c.hosts@[a as int].1.host_groups,
                hid == id_for(hosts@, c.hosts@[a as int].0@),
                b <= hg@.len(),
                forall|y: int| 0 <= y < b ==> !(hid == Some(host_id) && #[trigger] id_for(groups@, host_groups_of(c, a as int)[y]) == Some(group_id)),
            decreases hg@.len() - b,
        {
            proof {
                assert(host_groups_of(c, a as int)[b as int] == hg@[b as int]@);
            }
            if hid == Some(host_id) && find_id(groups, hg[b].as_str()) == Some(group_id) {
                return true;
            }
            b += 1;
        }
        a += 1;
    }
    false
}

fn link_configured(c: &Configuration, services: &Vec<(String, u128)>, groups: &Vec<(String, u128)>, service_id: u128, group_id: u128) -> (r: bool)
    ensures
        r == is_service_link(c, services@, groups@, service_id, group_id),
{
    let mut sv: usize = 0;
    while sv < c.services.len()
        invariant
            sv <= c.services@.len(),
            forall|x: int, b: int|
                0 <= x < sv && 0 <= b < service_groups_of(c, x).len() ==> !(#[trigger] id_for(services@, c.services@[x].0@)
                    == Some(service_id) && #[trigger] id_for(groups@, service_groups_of(c, x)[b]) == Some(group_id)),
        decreases c.services@.len() - sv,
    {
        let sid = find_id(services, c.services[sv].0.as_str());
        let sg = &c.services[sv].1.host_groups;
        let mut b: usize = 0;
        while b < sg.len()
            invariant
                sv < c.services@.len(),
                sg == c.services@[sv as int].1.host_groups,
                sid == id_for(services@, c.services@[sv as int].0@),
                b <= sg@.len(),
                forall|y: int| 0 <= y < b ==> !(sid == Some(service_id) && #[trigger] id_for(groups@, service_groups_of(c, sv as int)[y]) == Some(group_id)),
            decreases sg@.len() - b,
        {
            proof {
                assert(service_groups_of(c, sv as int)[b as int] == sg@[b as int]@);
            }
            if sid == Some(service_id) && find_id(groups, sg[b].as_str()) == Some(group_id) {
                return true;
            }
            b += 1;
        }
        sv += 1;
    }
    false
}

fn check_configured(c: &Configuration, hosts: &Vec<(String, u128)>, services: &Vec<(String, u128)>, host_id: u128, service_id: u128) -> (r: bool)
    ensures
        r == is_configured_check(c, hosts@, services@, host_id, service_id),
{
    let mut sv: usize = 0;
    while sv < c.services.len()
        invariant
            sv <= c.services@.len(),
            forall|x: int, b: int, a: int|
                0 <= x < sv && 0 <= b < service_groups_of(c, x).len() && 0 <= a < c.hosts@.len() ==> !(
                #[trigger] host_groups_of(c, a).contains(service_groups_of(c, x)[b]) && #[trigger] id_for(services@, c.services@[x].0@)
                    == Some(service_id) && #[trigger] id_for(hosts@, c.hosts@[a].0@) == Some(host_id)),
        decreases c.services@.len() - sv,
    {
        let sid = find_id(services, c.services[sv].0.as_str());
        let sg = &c.services[sv].1.host_groups;
        let mut b: usize = 0;
        while b < sg.len()
            invariant
                sv < c.services@.len(),
                sg == c.services@[sv as int].1.host_groups,
                sid == id_for(services@, c.services@[sv as int].0@),
                b <= sg@.len(),
                forall|y: int, a: int|
                    0 <= y < b && 0 <= a < c.hosts@.len() ==> !(#[trigger] host_groups_of(c, a).contains(service_groups_of(c, sv as int)[y])
                        && sid == Some(service_id) && #[trigger] id_for(hosts@, c.hosts@[a].0@) == Some(host_id)),
            decreases sg@.len() - b,
        {
            proof {
                assert(service_groups_of(c, sv as int)[b as int] == sg@[b as int]@);
            }
            let mut a: usize = 0;
            while a < c.hosts.len()
                invariant
                    sv < c.services@.len(),
                    sg == c.services@[sv as int].1.host_groups,
                    sid == id_for(services@, c.services@[sv as int].0@),
                    b < sg@.len(),
                    service_groups_of(c, sv as int)[b as int] == sg@[b as int]@,
                    a <= c.hosts@.len(),
                    forall|z: int| 0 <= z < a ==> !(#[trigger] host_groups_of(c, z).contains(service_groups_of(c, sv as int)[b as int])
                        && sid == Some(service_id) && #[trigger] id_for(hosts@, c.hosts@[z].0@) == Some(host_id)),
                decreases c.hosts@.len() - a,
            {
                if sid == Some(service_id) && contains_text(&c.hosts[a].1.host_groups, sg[b].as_str())
                    && find_id(hosts, c.hosts[a].0.as_str()) == Some(host_id) {
                    proof {
                        let (x, y, z) = (sv as int, b as int, a as int);
                        assert(host_groups_of(c, z).contains(service_groups_of(c, x)[y]));
                        assert(0 <= x < c.services@.len() && 0 <= y < service_groups_of(c, x).len() && 0 <= z
                            < c.hosts@.len() && host_groups_of(c, z).contains(service_groups_of(c, x)[y])
                            && id_for(services@, c.services@[x].0@) == Some(service_id) && id_for(
                            hosts@,
                            c.hosts@[z].0@,
                        ) == Some(host_id));
                    }
                    return true;
                }
                a += 1;
            }
            b += 1;
        }
        sv += 1;
    }
    let local_id = find_id(hosts, LOCAL_SERVICE_HOST_NAME);
    let locals = &c.local_services.services;
    let mut n: usize = 0;
    while n < locals.len()
        invariant
            locals == c.local_services.services,
            local_id == id_for(hosts@, LOCAL_SERVICE_HOST_NAME@),
            n <= locals@.len(),
            forall|x: int| 0 <= x < n ==> !(local_id == Some(host_id) && #[trigger] id_for(services@, locals@[x]@) == Some(service_id)),
        decreases locals@.len() - n,
    {
        if local_id == Some(host_id) && find_id(services, locals[n].as_str()) == Some(service_id) {
            return true;
        }
        n += 1;
    }
    false
}

/// Works out what is stale in the database given the configuration. `hosts`, `services`
/// and `groups` are the stored names and IDs; `checks` holds each stored check's ID, host
/// and service; `service_links` each link's ID, service and group; `memberships` each
/// membership's ID, host and group. Every name the configuration uses must be stored (see
/// [`names_stored`]); otherwise an error names one that is not. Then the stale rows are,
/// in their order: the checks the configuration does not make, the links and memberships it
/// does not make, and the hosts, services and groups it does not name.
pub fn prune_plan(
    c: &Configuration,
    hosts: &Vec<(String, u128)>,
    services: &Vec<(String, u128)>,
    groups: &Vec<(String, u128)>,
    checks: &Vec<(u128, u128, u128)>,
    service_links: &Vec<(u128, u128, u128)>,
    memberships: &Vec<(u128, u128, u128)>,
) -> (r: Result<PrunePlan, MaremmaError>)
    ensures
        r is Ok <==> names_stored(c, hosts@, services@, groups@),
        r matches Err(e) ==> missing_name_error(c, hosts@, services@, groups@, e),
        r matches Ok(p) ==> {
            &&& p.checks@ == unkept(
                checks@.map_values(|t: (u128, u128, u128)| t.0),
                checks@.map_values(|t: (u128, u128, u128)| is_configured_check(c, hosts@, services@, t.1, t.2)),
            )
            &&& p.service_links@ == unkept(
                service_links@.map_values(|t: (u128, u128, u128)| t.0),
                service_links@.map_values(|t: (u128, u128, u128)| is_service_link(c, services@, groups@, t.1, t.2)),
            )
            &&& p.memberships@ == unkept(
                memberships@.map_values(|t: (u128, u128, u128)| t.0),
                memberships@.map_values(|t: (u128, u128, u128)| is_membership(c, hosts@, groups@, t.1, t.2)),
            )
            &&& p.hosts@ == unkept(
                hosts@.map_values(|t: (String, u128)| t.1),
                hosts@.map_values(|t: (String, u128)| exists|a: int| 0 <= a < c.hosts@.len() && #[trigger] c.hosts@[a].0@ == t.0@),
            )
            &&& p.services@ == unkept(
                services@.map_values(|t: (String, u128)| t.1),
                services@.map_values(|t: (String, u128)| exists|s: int| 0 <= s < c.services@.len() && #[trigger] c.services@[s].0@ == t.0@),
            )
            &&& p.groups@ == unkept(
                groups@.map_values(|t: (String, u128)| t.1),
                groups@.map_values(|t: (String, u128)| config_group(c, t.0@)),
            )
        },
{
    match validate_names(c, hosts, services, groups) {
        Ok(()) => {},
        Err(e) => {
            return Err(e);
        },
    }
    let configured_groups = c.groups();
    let mut check_ids: Vec<u128> = Vec::new();
    let mut check_keep: Vec<bool> = Vec::new();
    let mut i: usize = 0;
    while i < checks.len()
        invariant
            i <= checks@.len(),
            check_ids@ == checks@.map_values(|t: (u128, u128, u128)| t.0).take(i as int),
            check_keep@ == checks@.map_values(|t: (u128, u128, u128)| is_configured_check(c, hosts@, services@, t.1, t.2)).take(i as int),
        decreases checks@.len() - i,
    {
        let t = checks[i];
        check_ids.push(t.0);
        check_keep.push(check_configured(c, hosts, services, t.1, t.2));
        proof {
            assert(check_ids@ =~= checks@.map_values(|t: (u128, u128, u128)| t.0).take(i + 1));
            assert(check_keep@ =~= checks@.map_values(|t: (u128, u128, u128)| is_configured_check(c, hosts@, services@, t.1, t.2)).take(i + 1));
        }
        i += 1;
    }
    let mut link_ids: Vec<u128> = Vec::new();
    let mut link_keep: Vec<bool> = Vec::new();
    let mut i: usize = 0;
    while i < service_links.len()
        invariant
            i <= service_links@.len(),
            link_ids@ == service_links@.map_values(|t: (u128, u128, u128)| t.0).take(i as int),
            link_keep@ == service_links@.map_values(|t: (u128, u128, u128)| is_service_link(c, services@, groups@, t.1, t.2)).take(i as int),
        decreases service_links@.len() - i,
    {
        let t = service_links[i];
        link_ids.push(t.0);
        link_keep.push(link_configured(c, services, groups, t.1, t.2));
        proof {
            assert(link_ids@ =~= service_links@.map_values(|t: (u128, u128, u128)| t.0).take(i + 1));
            assert(link_keep@ =~= service_links@.map_values(|t: (u128, u128, u128)| is_service_link(c, services@, groups@, t.1, t.2)).take(i + 1));
        }
        i += 1;
    }
    let mut member_ids: Vec<u128> = Vec::new();
    let mut member_keep: Vec<bool> = Vec::new();
    let mut i: usize = 0;
    while i < memberships.len()
        invariant
            i <= memberships@.len(),
            member_ids@ == memberships@.map_values(|t: (u128, u128, u128)| t.0).take(i as int),
            member_keep@ == memberships@.map_values(|t: (u128, u128, u128)| is_membership(c, hosts@, groups@, t.1, t.2)).take(i as int),
        decreases memberships@.len() - i,
    {
        let t = memberships[i];
        member_ids.push(t.0);
        member_keep.push(membership_configured(c, hosts, groups, t.1, t.2));
        proof {
            assert(member_ids@ =~= memberships@.map_values(|t: (u128, u128, u128)| t.0).take(i + 1));
            assert(member_keep@ =~= memberships@.map_values(|t: (u128, u128, u128)| is_membership(c, hosts@, groups@, t.1, t.2)).take(i + 1));
        }
        i += 1;
    }
    let mut host_ids: Vec<u128> = Vec::new();
    let mut host_keep: Vec<bool> = Vec::new();
    let mut i: usize = 0;
    while i < hosts.len()
        invariant
            i <= hosts@.len(),
            host_ids@ == hosts@.map_values(|t: (String, u128)| t.1).take(i as int),
            host_keep@ == hosts@.map_values(|t: (String, u128)| exists|a: int| 0 <= a < c.hosts@.len() && #[trigger] c.hosts@[a].0@ == t.0@).take(i as int),
        decreases hosts@.len() - i,
    {
        host_ids.push(hosts[i].1);
        host_keep.push(host_named(c, hosts[i].0.as_str()));
        proof {
            assert(host_ids@ =~= hosts@.map_values(|t: (String, u128)| t.1).take(i + 1));
            assert(host_keep@ =~= hosts@.map_values(|t: (String, u128)| exists|a: int| 0 <= a < c.hosts@.len() && #[trigger] c.hosts@[a].0@ == t.0@).take(i + 1));
        }
        i += 1;
    }
    let mut service_ids: Vec<u128> = Vec::new();
    let mut service_keep: Vec<bool> = Vec::new();
    let mut i: usize = 0;
    while i < services.len()
        invariant
            i <= services@.len(),
            service_ids@ == services@.map_values(|t: (String, u128)| t.1).take(i as int),
            service_keep@ == services@.map_values(|t: (String, u128)| exists|s: int| 0 <= s < c.services@.len() && #[trigger] c.services@[s].0@ == t.0@).take(i as int),
        decreases services@.len() - i,
    {
        service_ids.push(services[i].1);
        service_keep.push(service_named(c, services[i].0.as_str()));
        proof {
            assert(service_ids@ =~= services@.map_values(|t: (String, u128)| t.1).take(i + 1));
            assert(service_keep@ =~= services@.map_values(|t: (String, u128)| exists|s: int| 0 <= s < c.services@.len() && #[trigger] c.services@[s].0@ == t.0@).take(i + 1));
        }
        i += 1;
    }
    let mut group_ids: Vec<u128> = Vec::new();
    let mut group_keep: Vec<bool> = Vec::new();
    let mut i: usize = 0;
    while i < groups.len()
        invariant
            i <= groups@.len(),
            forall|g: Seq<char>| #[trigger] views(configured_groups@).contains(g) <==> config_group(c, g),
            group_ids@ == groups@.map_values(|t: (String, u128)| t.1).take(i as int),
            group_keep@ == groups@.map_values(|t: (String, u128)| config_group(c, t.0@)).take(i as int),
        decreases groups@.len() - i,
    {
        group_ids.push(groups[i].1);
        group_keep.push(contains_text(&configured_groups, groups[i].0.as_str()));
        proof {
            assert(group_ids@ =~= groups@.map_values(|t: (String, u128)| t.1).take(i + 1));
            assert(group_keep@ =~= groups@.map_values(|t: (String, u128)| config_group(c, t.0@)).take(i + 1));
        }
        i += 1;
    }
    proof {
        assert(check_ids@ =~= checks@.map_values(|t: (u128, u128, u128)| t.0));
        assert(check_keep@ =~= checks@.map_values(|t: (u128, u128, u128)| is_configured_check(c, hosts@, services@, t.1, t.2)));
        assert(link_ids@ =~= service_links@.map_values(|t: (u128, u128, u128)| t.0));
        assert(link_keep@ =~= service_links@.map_values(|t: (u128, u128, u128)| is_service_link(c, services@, groups@, t.1, t.2)));
        assert(member_ids@ =~= memberships@.map_values(|t: (u128, u128, u128)| t.0));
        assert(member_keep@ =~= memberships@.map_values(|t: (u128, u128, u128)| is_membership(c, hosts@, groups@, t.1, t.2)));
        assert(host_ids@ =~= hosts@.map_values(|t: (String, u128)| t.1));
        assert(host_keep@ =~= hosts@.map_values(|t: (String, u128)| exists|a: int| 0 <= a < c.hosts@.len() && #[trigger] c.hosts@[a].0@ == t.0@));
        assert(service_ids@ =~= services@.map_values(|t: (String, u128)| t.1));
        assert(service_keep@ =~= services@.map_values(|t: (String, u128)| exists|s: int| 0 <= s < c.services@.len() && #[trigger] c.services@[s].0@ == t.0@));
        assert(group_ids@ =~= groups@.map_values(|t: (String, u128)| t.1));
        assert(group_keep@ =~= groups@.map_values(|t: (String, u128)| config_group(c, t.0@)));
    }
    Ok(PrunePlan {
        checks: drop_kept(&check_ids, &check_keep),
        service_links: drop_kept(&link_ids, &link_keep),
        memberships: drop_kept(&member_ids, &member_keep),
        hosts: drop_kept(&host_ids, &host_keep),
        services: drop_kept(&service_ids, &service_keep),
        groups: drop_kept(&group_ids, &group_keep),
    })
}

/// The group memberships and service links the configuration makes, by stored ID.
#[derive(Debug)]
pub struct ConfigLinks {
    /// `(host, group)` rows
    pub members: Vec<(u128, u128)>,
    /// `(service, group)` rows
    pub links: Vec<(u128, u128)>,
}

/// The group memberships and service links the configuration makes, given the stored names
/// and IDs. Every name the configuration uses must be stored (see [`names_stored`]);
/// otherwise an error names one that is not.
pub fn config_links(
    c: &Configuration,
    hosts: &Vec<(String, u128)>,
    services: &Vec<(String, u128)>,
    groups: &Vec<(String, u128)>,
) -> (r: Result<ConfigLinks, MaremmaError>)
    ensures
        r is Ok <==> names_stored(c, hosts@, services@, groups@),
        r matches Err(e) ==> missing_name_error(c, hosts@, services@, groups@, e),
        r matches Ok(l) ==> {
            &&& forall|p: (u128, u128)| #[trigger] l.members@.contains(p) <==> is_membership(c, hosts@, groups@, p.0, p.1)
            &&& forall|p: (u128, u128)| #[trigger] l.links@.contains(p) <==> is_service_link(c, services@, groups@, p.0, p.1)
        },
{
    match validate_names(c, hosts, services, groups) {
        Ok(()) => {},
        Err(e) => {
            return Err(e);
        },
    }
    let mut members: Vec<(u128, u128)> = Vec::new();
    let mut a: usize = 0;
    while a < c.hosts.len()
        invariant
            names_stored(c, hosts@, services@, groups@),
            a <= c.hosts@.len(),
            forall|p: (u128, u128)| #[trigger] members@.contains(p) <==> exists|x: int, b: int|
                0 <= x < a && 0 <= b < host_groups_of(c, x).len() && #[trigger] id_for(hosts@, c.hosts@[x].0@)
                    == Some(p.0) && #[trigger] id_for(groups@, host_groups_of(c, x)[b]) == Some(p.1),
        decreases c.hosts@.len() - a,
    {
        let host_id = find_id(hosts, c.hosts[a].0.as_str());
        assert(id_for(hosts@, c.hosts@[a as int].0@) is Some);
        let h = host_id.unwrap();
        let hg = &c.hosts[a].1.host_groups;
        let mut b: usize = 0;
        while b < hg.len()
            invariant
                names_stored(c, hosts@, services@, groups@),
                a < c.hosts@.len(),
                hg@ == c.hosts@[a as int].1.host_groups@,
                id_for(hosts@, c.hosts@[a as int].0@) == Some(h),
                b <= hg@.len(),
                forall|p: (u128, u128)| #[trigger] members@.contains(p) <==> ((exists|x: int, k: int|
                    0 <= x < a && 0 <= k < host_groups_of(c, x).len() && #[trigger] id_for(hosts@, c.hosts@[x].0@)
                        == Some(p.0) && #[trigger] id_for(groups@, host_groups_of(c, x)[k]) == Some(p.1))
                    || (p.0 == h && exists|k: int| 0 <= k < b && #[trigger] id_for(groups@, host_groups_of(c, a as int)[k]) == Some(p.1))),
            decreases hg@.len() - b,
        {
            assert(host_groups_of(c, a as int)[b as int] == hg@[b as int]@);
            assert(id_for(groups@, host_groups_of(c, a as int)[b as int]) is Some);
            let g = find_id(groups, hg[b].as_str()).unwrap();
            let ghost before = members@;
            members.push((h, g));
            proof {
                assert forall|q: (u128, u128)| #[trigger] members@.contains(q) <==> (before.contains(q) || q == (h, g)) by {
                    if members@.contains(q) {
                        let k = choose|k: int| 0 <= k < members@.len() && members@[k] == q;
                        if k < before.len() {
                            assert(before[k] == q);
                        }
                    }
                    if before.contains(q) {
                        let k = choose|k: int| 0 <= k < before.len() && before[k] == q;
                        assert(members@[k] == q);
                    }
                    if q == (h, g) {
                        assert(members@[before.len() as int] == q);
                    }
                }
                assert forall|q: (u128, u128)| #[trigger] members@.contains(q) <==> ((exists|x: int, k: int|
                    0 <= x < a && 0 <= k < host_groups_of(c, x).len() && #[trigger] id_for(hosts@, c.hosts@[x].0@)
                        == Some(q.0) && #[trigger] id_for(groups@, host_groups_of(c, x)[k]) == Some(q.1))
                    || (q.0 == h && exists|k: int| 0 <= k < b + 1 && #[trigger] id_for(groups@, host_groups_of(c, a as int)[k]) == Some(q.1))) by {
                    if q.0 == h && exists|k: int| 0 <= k < b + 1 && #[trigger] id_for(groups@, host_groups_of(c, a as int)[k]) == Some(q.1) {
                        let k = choose|k: int| 0 <= k < b + 1 && #[trigger] id_for(groups@, host_groups_of(c, a as int)[k]) == Some(q.1);
                        if k == b {
                            assert(q == (h, g));
                        }
                    }
                }
            }
            b += 1;
        }
        proof {
            assert forall|q: (u128, u128)| #[trigger] members@.contains(q) <==> exists|x: int, k: int|
                0 <= x < a + 1 && 0 <= k < host_groups_of(c, x).len() && #[trigger] id_for(hosts@, c.hosts@[x].0@)
                    == Some(q.0) && #[trigger] id_for(groups@, host_groups_of(c, x)[k]) == Some(q.1) by {
                if exists|x: int, k: int|
                    0 <= x < a + 1 && 0 <= k < host_groups_of(c, x).len() && #[trigger] id_for(hosts@, c.hosts@[x].0@)
                        == Some(q.0) && #[trigger] id_for(groups@, host_groups_of(c, x)[k]) == Some(q.1) {
                    let (x, k) = choose|x: int, k: int|
                        0 <= x < a + 1 && 0 <= k < host_groups_of(c, x).len() && #[trigger] id_for(hosts@, c.hosts@[x].0@)
                            == Some(q.0) && #[trigger] id_for(groups@, host_groups_of(c, x)[k]) == Some(q.1);
                    if x == a {
                        assert(id_for(groups@, host_groups_of(c, a as int)[k]) == Some(q.1));
                    }
                }
            }
        }
        a += 1;
    }
    let mut links: Vec<(u128, u128)> = Vec::new();
    let mut s: usize = 0;
    while s < c.services.len()
        invariant
            names_stored(c, hosts@, services@, groups@),
            s <= c.services@.len(),
            forall|p: (u128, u128)| #[trigger] members@.contains(p) <==> is_membership(c, hosts@, groups@, p.0, p.1),
            forall|p: (u128, u128)| #[trigger] links@.contains(p) <==> exists|x: int, b: int|
                0 <= x < s && 0 <= b < service_groups_of(c, x).len() && #[trigger] id_for(services@, c.services@[x].0@)
                    == Some(p.0) && #[trigger] id_for(groups@, service_groups_of(c, x)[b]) == Some(p.1),
        decreases c.services@.len() - s,
    {
        let service_id = find_id(services, c.services[s].0.as_str());
        assert(id_for(services@, c.services@[s as int].0@) is Some);
        let v = service_id.unwrap();
        let sg = &c.services[s].1.host_groups;
        let mut b: usize = 0;
        while b < sg.len()
            invariant
                names_stored(c, hosts@, services@, groups@),
                s < c.services@.len(),
                sg@ == c.services@[s as int].1.host_groups@,
                id_for(services@, c.services@[s as int].0@) == Some(v),
                b <= sg@.len(),
                forall|p: (u128, u128)| #[trigger] links@.contains(p) <==> ((exists|x: int, k: int|
                    0 <= x < s && 0 <= k < service_groups_of(c, x).len() && #[trigger] id_for(services@, c.services@[x].0@)
                        == Some(p.0) && #[trigger] id_for(groups@, service_groups_of(c, x)[k]) == Some(p.1))
                    || (p.0 == v && exists|k: int| 0 <= k < b && #[trigger] id_for(groups@, service_groups_of(c, s as int)[k]) == Some(p.1))),
            decreases sg@.len() - b,
        {
            assert(service_groups_of(c, s as int)[b as int] == sg@[b as int]@);
            assert(id_for(groups@, service_groups_of(c, s as int)[b as int]) is Some);
            let g = find_id(groups, sg[b].as_str()).unwrap();
            let ghost before = links@;
            links.push((v, g));
            proof {
                assert forall|q: (u128, u128)| #[trigger] links@.contains(q) <==> (before.contains(q) || q == (v, g)) by {
                    if links@.contains(q) {
                        let k = choose|k: int| 0 <= k < links@.len() && links@[k] == q;
                        if k < before.len() {
                            assert(before[k] == q);
                        }
                    }
                    if before.contains(q) {
                        let k = choose|k: int| 0 <= k < before.len() && before[k] == q;
                        assert(links@[k] == q);
                    }
                    if q == (v, g) {
                        assert(links@[before.len() as int] == q);
                    }
                }
                assert forall|q: (u128, u128)| #[trigger] links@.contains(q) <==> ((exists|x: int, k: int|
                    0 <= x < s && 0 <= k < service_groups_of(c, x).len() && #[trigger] id_for(services@, c.services@[x].0@)
                        == Some(q.0) && #[trigger] id_for(groups@, service_groups_of(c, x)[k]) == Some(q.1))
                    || (q.0 == v && exists|k: int| 0 <= k < b + 1 && #[trigger] id_for(groups@, service_groups_of(c, s as int)[k]) == Some(q.1))) by {
                    if q.0 == v && exists|k: int| 0 <= k < b + 1 && #[trigger] id_for(groups@, service_groups_of(c, s as int)[k]) == Some(q.1) {
                        let k = choose|k: int| 0 <= k < b + 1 && #[trigger] id_for(groups@, service_groups_of(c, s as int)[k]) == Some(q.1);
                        if k == b {
                            assert(q == (v, g));
                        }
                    }
                }
            }
            b += 1;
        }
        proof {
            assert forall|q: (u128, u128)| #[trigger] links@.contains(q) <==> exists|x: int, k: int|
                0 <= x < s + 1 && 0 <= k < service_groups_of(c, x).len() && #[trigger] id_for(services@, c.services@[x].0@)
                    == Some(q.0) && #[trigger] id_for(groups@, service_groups_of(c, x)[k]) == Some(q.1) by {
                if exists|x: int, k: int|
                    0 <= x < s + 1 && 0 <= k < service_groups_of(c, x).len() && #[trigger] id_for(services@, c.services@[x].0@)
                        == Some(q.0) && #[trigger] id_for(groups@, service_groups_of(c, x)[k]) == Some(q.1) {
                    let (x, k) = choose|x: int, k: int|
                        0 <= x < s + 1 && 0 <= k < service_groups_of(c, x).len() && #[trigger] id_for(services@, c.services@[x].0@)
                            == Some(q.0) && #[trigger] id_for(groups@, service_groups_of(c, x)[k]) == Some(q.1);
                    if x == s {
                        assert(id_for(groups@, service_groups_of(c, s as int)[k]) == Some(q.1));
                    }
                }
            }
        }
        s += 1;
    }
    Ok(ConfigLinks { members, links })
}

} // verus!
