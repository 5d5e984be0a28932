//! What the database holds and how its rows relate: the connection string, the joined view
//! of service checks, the group links, and how a configured host becomes a stored one.

use vstd::prelude::*;
use crate::host::{Host, HostCheck};
use crate::ids::new_uuid;
use crate::services::ServiceType;
use crate::status::ServiceStatus;
use crate::text::{push_str, str_eq, views};
use crate::errors::MaremmaError;
use crate::prune::{id_for, find_id, unkept, nothing_pruned_when_all_kept};
use crate::schedule::{status_after_config_update, config_update_reset_is_idempotent};

verus! {

/// The connection string for a database file: SQLite in memory for `:memory:`, else the
/// file, created where missing.
pub fn get_connect_string(database_file: &str) -> (r: String)
    ensures
        database_file@ == ":memory:"@ ==> r@ == "sqlite::memory:"@,
        database_file@ != ":memory:"@ ==> r@ == "sqlite://"@ + database_file@ + "?mode=rwc"@,
{
    if str_eq(database_file, ":memory:") {
        "sqlite::memory:".to_owned()
    } else {
        let mut t = String::new();
        push_str(&mut t, "sqlite://");
        push_str(&mut t, database_file);
        push_str(&mut t, "?mode=rwc");
        t
    }
}

/// A service check joined with its service and host. Times are in milliseconds since the
/// Unix epoch.
#[derive(Debug)]
pub struct FullServiceCheck {
    /// The check's ID
    pub id: u128,
    /// The service's name
    pub service_name: String,
    /// The service's type
    pub service_type: ServiceType,
    /// The service's ID
    pub service_id: u128,
    /// The host's ID
    pub host_id: u128,
    /// The host's name
    pub host_name: String,
    /// When the check last ran
    pub last_check: i64,
    /// When the check is next due
    pub next_check: i64,
    /// The current status
    pub status: ServiceStatus,
}

/// The positions, in order, of the checks of a service.
pub open spec fn positions_of_service(checks: Seq<FullServiceCheck>, service_id: u128) -> Seq<int>
    decreases checks.len(),
{
    if checks.len() == 0 {
        Seq::empty()
    } else {
        positions_of_service(checks.drop_last(), service_id) + if checks.last().service_id == service_id {
            seq![checks.len() - 1]
        } else {
            Seq::empty()
        }
    }
}

impl FullServiceCheck {
    /// The checks of a service among `checks`: their positions, in order.
    pub fn get_by_service_id_query(checks: &Vec<FullServiceCheck>, service_id: u128) -> (r: Vec<usize>)
        ensures
            r@.map_values(|i: usize| i as int) == positions_of_service(checks@, service_id),
    {
        let mut out: Vec<usize> = Vec::new();
        let mut i: usize = 0;
        while i < checks.len()
            invariant
                i <= checks@.len(),
                out@.map_values(|k: usize| k as int) == positions_of_service(checks@.take(i as int), service_id),
            decreases checks@.len() - i,
        {
            proof {
                assert(checks@.take(i + 1).drop_last() =~= checks@.take(i as int));
            }
            if checks[i].service_id == service_id {
                let ghost before = out@;
                out.push(i);
                proof {
                    assert(out@.map_values(|k: usize| k as int) =~= before.map_values(|k: usize| k as int).push(
                        i as int,
                    ));
                }
            } else {
                proof {
                    assert(out@.map_values(|k: usize| k as int) =~= out@.map_values(|k: usize| k as int)
                        + Seq::<int>::empty());
                }
            }
            i += 1;
        }
        proof {
            assert(checks@.take(i as int) =~= checks@);
        }
        out
    }
}

/// What a link table relates `key` to: the second item of each pair whose first item is
/// `key` (or the first of each whose second is, going back), in order.
pub open spec fn linked(pairs: Seq<(u128, u128)>, key: u128, forward: bool) -> Seq<u128>
    decreases pairs.len(),
{
    if pairs.len() == 0 {
        Seq::empty()
    } else {
        let p = pairs.last();
        linked(pairs.drop_last(), key, forward) + if forward && p.0 == key {
            seq![p.1]
        } else if !forward && p.1 == key {
            seq![p.0]
        } else {
            Seq::empty()
        }
    }
}

fn follow(pairs: &Vec<(u128, u128)>, key: u128, forward: bool) -> (r: Vec<u128>)
    ensures
        r@ == linked(pairs@, key, forward),
{
    let mut out: Vec<u128> = Vec::new();
    let mut i: usize = 0;
    while i < pairs.len()
        invariant
            i <= pairs@.len(),
            out@ == linked(pairs@.take(i as int), key, forward),
        decreases pairs@.len() - i,
    {
        proof {
            assert(pairs@.take(i + 1).drop_last() =~= pairs@.take(i as int));
        }
        let p = pairs[i];
        if forward && p.0 == key {
            out.push(p.1);
        } else if !forward && p.1 == key {
            out.push(p.0);
        }
        proof {
            assert(out@ =~= linked(pairs@.take(i + 1), key, forward));
        }
        i += 1;
    }
    proof {
        assert(pairs@.take(i as int) =~= pairs@);
    }
    out
}

/// From a host to the groups it is a member of.
pub struct HostToGroups;

/// From a group to the hosts that are its members.
pub struct GroupToHosts;

/// From a service to the groups it is linked to.
pub struct ServiceToGroups;

/// From a group to the services linked to it.
pub struct GroupToServices;

impl HostToGroups {
    /// The groups of `host_id`, from the membership rows `(host, group)`.
    pub fn link(members: &Vec<(u128, u128)>, host_id: u128) -> (r: Vec<u128>)
        ensures
            r@ == linked(members@, host_id, true),
    {
        follow(members, host_id, true)
    }
}

impl GroupToHosts {
    /// The hosts of `group_id`, from the membership rows `(host, group)`.
    pub fn link(members: &Vec<(u128, u128)>, group_id: u128) -> (r: Vec<u128>)
        ensures
            r@ == linked(members@, group_id, false),
    {
        follow(members, group_id, false)
    }
}

impl ServiceToGroups {
    /// The groups of `service_id`, from the link rows `(service, group)`.
    pub fn link(links: &Vec<(u128, u128)>, service_id: u128) -> (r: Vec<u128>)
        ensures
            r@ == linked(links@, service_id, true),
    {
        follow(links, service_id, true)
    }
}

impl GroupToServices {
    /// The services of `group_id`, from the link rows `(service, group)`.
    pub fn link(links: &Vec<(u128, u128)>, group_id: u128) -> (r: Vec<u128>)
        ensures
            r@ == linked(links@, group_id, false),
    {
        follow(links, group_id, false)
    }
}

/// A stored host.
#[derive(Debug)]
pub struct HostRecord {
    /// The host's ID
    pub id: u128,
    /// The name it is configured under
    pub name: String,
    /// The name to reach it by
    pub hostname: String,
    /// How it is checked
    pub check: HostCheck,
}

/// The stored form of the host configured as `name`. A host already stored keeps its ID; a
/// new one takes the configured ID, or a fresh random one. The hostname is the configured
/// one, or the name.
pub fn host_record(name: &str, host: &Host, stored_id: Option<u128>) -> (r: HostRecord)
    ensures
        stored_id matches Some(id) ==> r.id == id,
        stored_id is None && host.id is Some ==> r.id == host.id->0,
        r.name@ == name@,
        r.hostname@ == match host.hostname {
            Some(h) => h@,
            None => name@,
        },
        r.check == host.check,
{
    let id = match stored_id {
        Some(id) => id,
        None => match host.id {
            Some(id) => id,
            None => new_uuid(),
        },
    };
    let hostname = match &host.hostname {
        Some(h) => h.clone(),
        None => name.to_owned(),
    };
    HostRecord { id, name: name.to_owned(), hostname, check: host.check }
}

/// Is a service checked on a host through the links? It is when the service is linked to a
/// group the host is a member of. `links` holds `(service, group)` rows and `members`
/// `(host, group)` rows.
pub open spec fn linked_check(links: Seq<(u128, u128)>, members: Seq<(u128, u128)>, host_id: u128, service_id: u128) -> bool {
    exists|i: int, j: int|
        0 <= i < links.len() && 0 <= j < members.len() && #[trigger] links[i].0 == service_id
            && #[trigger] members[j].0 == host_id && members[j].1 == links[i].1
}

fn contains_pair(v: &Vec<(u128, u128)>, p: (u128, u128)) -> (r: bool)
    ensures
        r == v@.contains(p),
{
    let mut i: usize = 0;
    while i < v.len()
        invariant
            i <= v@.len(),
            forall|j: int| 0 <= j < i ==> v@[j] != p,
        decreases v@.len() - i,
    {
        if v[i].0 == p.0 && v[i].1 == p.1 {
            assert(v@[i as int] == p);
            return true;
        }
        i += 1;
    }
    false
}

/// The checks to add so that every service is checked on every host of the groups it is
/// linked to: the `(host, service)` pairs linked that are not among `existing`, each once.
pub fn service_checks_to_add(links: &Vec<(u128, u128)>, members: &Vec<(u128, u128)>, existing: &Vec<(u128, u128)>) -> (r: Vec<(u128, u128)>)
    ensures
        r@.no_duplicates(),
        forall|p: (u128, u128)| #[trigger] r@.contains(p) <==> (linked_check(links@, members@, p.0, p.1) && !existing@.contains(p)),
{
    let mut out: Vec<(u128, u128)> = Vec::new();
    let mut i: usize = 0;
    while i < links.len()
        invariant
            i <= links@.len(),
            out@.no_duplicates(),
            forall|p: (u128, u128)| #[trigger] out@.contains(p) <==> (!existing@.contains(p) && exists|a: int, b: int|
                0 <= a < i && 0 <= b < members@.len() && #[trigger] links@[a].0 == p.1 && #[trigger] members@[b].0 == p.0
                    && members@[b].1 == links@[a].1),
        decreases links@.len() - i,
    {
        let (service_id, group_id) = links[i];
        let mut j: usize = 0;
        while j < members.len()
            invariant
                i < links@.len(),
                links@[i as int] == (service_id, group_id),
                j <= members@.len(),
                out@.no_duplicates(),
                forall|p: (u128, u128)| #[trigger] out@.contains(p) <==> (!existing@.contains(p) && ((exists|a: int, b: int|
                    0 <= a < i && 0 <= b < members@.len() && #[trigger] links@[a].0 == p.1 && #[trigger] members@[b].0 == p.0
                        && members@[b].1 == links@[a].1) || (exists|b: int|
                    0 <= b < j && p.1 == service_id && #[trigger] members@[b].0 == p.0 && members@[b].1 == group_id))),
            decreases members@.len() - j,
        {
            let (host_id, g) = members[j];
            if g == group_id {
                let p = (host_id, service_id);
                if !contains_pair(existing, p) && !contains_pair(&out, p) {
                    let ghost before = out@;
                    out.push(p);
                    proof {
                        assert forall|k: int, l: int| 0 <= k < l < out@.len() implies out@[k] != out@[l] by {
                            if l == out@.len() - 1 {
                                assert(out@[k] == before[k]);
                            }
                        }
                        assert forall|q: (u128, u128)| #[trigger] out@.contains(q) <==> (before.contains(q) || q == p) by {
                            if out@.contains(q) {
                                let k = choose|k: int| 0 <= k < out@.len() && out@[k] == q;
                                if k < before.len() {
                                    assert(before[k] == q);
                                }
                            }
                            if before.contains(q) {
                                let k = choose|k: int| 0 <= k < before.len() && before[k] == q;
                                assert(out@[k] == q);
                            }
                            if q == p {
                                assert(out@[before.len() as int] == q);
                            }
                        }
                    }
                }
            }
            proof {
                assert forall|p: (u128, u128)| #[trigger] out@.contains(p) <==> (!existing@.contains(p) && ((exists|a: int, b: int|
                    0 <= a < i && 0 <= b < members@.len() && #[trigger] links@[a].0 == p.1 && #[trigger] members@[b].0 == p.0
                        && members@[b].1 == links@[a].1) || (exists|b: int|
                    0 <= b < j + 1 && p.1 == service_id && #[trigger] members@[b].0 == p.0 && members@[b].1 == group_id))) by {
                    if p == (host_id, service_id) && g == group_id {
                        assert(members@[j as int].0 == p.0);
                    }
                }
            }
            j += 1;
        }
        proof {
            assert forall|p: (u128, u128)| #[trigger] out@.contains(p) <==> (!existing@.contains(p) && exists|a: int, b: int|
                0 <= a < i + 1 && 0 <= b < members@.len() && #[trigger] links@[a].0 == p.1 && #[trigger] members@[b].0 == p.0
                    && members@[b].1 == links@[a].1) by {
                if exists|b: int| 0 <= b < j && p.1 == service_id && #[trigger] members@[b].0 == p.0 && members@[b].1 == group_id {
                    let b = choose|b: int| 0 <= b < j && p.1 == service_id && #[trigger] members@[b].0 == p.0 && members@[b].1 == group_id;
                    assert(links@[i as int].0 == p.1 && members@[b].0 == p.0);
                }
                if exists|a: int, b: int|
                    0 <= a < i + 1 && 0 <= b < members@.len() && #[trigger] links@[a].0 == p.1 && #[trigger] members@[b].0 == p.0
                        && members@[b].1 == links@[a].1 {
                    let (a, b) = choose|a: int, b: int|
                        0 <= a < i + 1 && 0 <= b < members@.len() && #[trigger] links@[a].0 == p.1 && #[trigger] members@[b].0 == p.0
                            && members@[b].1 == links@[a].1;
                    if a == i {
                        assert(members@[b].0 == p.0);
                    }
                }
            }
        }
        i += 1;
    }
    out
}

/// Once the checks to add are added, every service is checked on every host of the groups
/// it is linked to.
pub proof fn added_checks_cover_the_links(links: Seq<(u128, u128)>, members: Seq<(u128, u128)>, existing: Seq<(u128, u128)>, added: Seq<(u128, u128)>, host_id: u128, service_id: u128)
    requires
        forall|p: (u128, u128)| #[trigger] added.contains(p) <==> (linked_check(links, members, p.0, p.1) && !existing.contains(p)),
        linked_check(links, members, host_id, service_id),
    ensures
        (existing + added).contains((host_id, service_id)),
{
    let p = (host_id, service_id);
    if existing.contains(p) {
        let k = choose|k: int| 0 <= k < existing.len() && existing[k] == p;
        assert((existing + added)[k] == p);
    } else {
        assert(added.contains(p));
        let k = choose|k: int| 0 <= k < added.len() && added[k] == p;
        assert((existing + added)[existing.len() + k] == p);
    }
}

/// Updating from an unchanged configuration a second time adds no checks: once the checks
/// to add are added, the checks to add are none.
pub proof fn second_update_adds_no_checks(links: Seq<(u128, u128)>, members: Seq<(u128, u128)>, existing: Seq<(u128, u128)>, added: Seq<(u128, u128)>, again: Seq<(u128, u128)>)
    requires
        forall|p: (u128, u128)| #[trigger] added.contains(p) <==> (linked_check(links, members, p.0, p.1) && !existing.contains(p)),
        forall|p: (u128, u128)| #[trigger] again.contains(p) <==> (linked_check(links, members, p.0, p.1) && !(existing + added).contains(p)),
    ensures
        again.len() == 0,
{
    if again.len() > 0 {
        let p = again[0];
        assert(again.contains(p));
        added_checks_cover_the_links(links, members, existing, added, p.0, p.1);
    }
}

/// The ID the host of local checks is stored under when it is added: all zeros, which
/// marks it as special.
pub const LOCAL_HOST_ID: u128 = 0;

/// The position of the first local service that is not stored, if any.
pub open spec fn first_unstored(services: Seq<(String, u128)>, local: Seq<Seq<char>>) -> Option<int> {
    if exists|n: int| 0 <= n < local.len() && id_for(services, local[n]) is None {
        Some(choose|n: int| 0 <= n < local.len() && id_for(services, local[n]) is None && forall|m: int|
            0 <= m < n ==> id_for(services, local[m]) is Some)
    } else {
        None
    }
}

/// How far through the local services adding their checks gets: up to the first that is
/// not stored, or all of them.
pub open spec fn local_bound(services: Seq<(String, u128)>, local: Seq<Seq<char>>) -> int {
    match first_unstored(services, local) {
        Some(k) => k,
        None => local.len() as int,
    }
}

/// What making sure the local checks exist does.
#[derive(Debug)]
pub struct LocalChecks {
    /// The ID of the host of local checks
    pub host_id: u128,
    /// Whether that host has to be added
    pub add_host: bool,
    /// The `(host, service)` checks to add, each with status `Unknown`
    pub added: Vec<(u128, u128)>,
    /// The error that stopped it, if one did
    pub error: Option<MaremmaError>,
}

/// Makes sure every local service is checked on the host of local checks. That host is the
/// one stored (`stored_host`), or else a new one with [`LOCAL_HOST_ID`]. The local services
/// are taken in order: each stored one gets a check on that host unless it has one (in
/// `existing` or added before); the first that is not stored stops it with
/// `ServiceNotFoundByName`, the checks added before it staying added.
pub fn local_checks_to_add(
    stored_host: Option<u128>,
    services: &Vec<(String, u128)>,
    local_services: &Vec<String>,
    existing: &Vec<(u128, u128)>,
) -> (r: LocalChecks)
    ensures
        r.host_id == match stored_host {
            Some(id) => id,
            None => LOCAL_HOST_ID,
        },
        r.add_host == stored_host is None,
        r.added@.no_duplicates(),
        match first_unstored(services@, views(local_services@)) {
            Some(k) => r.error matches Some(MaremmaError::ServiceNotFoundByName(n)) && n@ == local_services@[k]@,
            None => r.error is None,
        },
        forall|p: (u128, u128)| #[trigger] r.added@.contains(p) <==> local_added(
            p,
            r.host_id,
            services@,
            views(local_services@),
            local_bound(services@, views(local_services@)),
            existing@,
        ),
{
    let host_id = match stored_host {
        Some(id) => id,
        None => LOCAL_HOST_ID,
    };
    let ghost local = views(local_services@);
    let mut added: Vec<(u128, u128)> = Vec::new();
    let mut i: usize = 0;
    while i < local_services.len()
        invariant
            local == views(local_services@),
            host_id == match stored_host {
                Some(id) => id,
                None => LOCAL_HOST_ID,
            },
            i <= local_services@.len(),
            forall|m: int| 0 <= m < i ==> id_for(services@, #[trigger] local[m]) is Some,
            added@.no_duplicates(),
            forall|p: (u128, u128)| #[trigger] added@.contains(p) <==> (p.0 == host_id && !existing@.contains(p)
                && exists|n: int| 0 <= n < i && #[trigger] id_for(services@, local_services@[n]@) == Some(p.1)),
        decreases local_services@.len() - i,
    {
        assert(local[i as int] == local_services@[i as int]@);
        match find_id(services, local_services[i].as_str()) {
            None => {
                proof {
                    assert(first_unstored(services@, local) == Some(i as int)) by {
                        let k = choose|n: int| 0 <= n < local.len() && id_for(services@, local[n]) is None
                            && forall|m: int| 0 <= m < n ==> id_for(services@, local[m]) is Some;
                        if k < i {
                            assert(id_for(services@, local[k]) is Some);
                        } else if k > i {
                            assert(id_for(services@, local[i as int]) is Some);
                        }
                    }
                    assert forall|p: (u128, u128)| #[trigger] added@.contains(p) <==> local_added(p, host_id, services@, local, i as int, existing@) by {
                        if exists|n: int| 0 <= n < local.len() && n < i && #[trigger] id_for(services@, local[n]) == Some(p.1) {
                            let n = choose|n: int| 0 <= n < local.len() && n < i && #[trigger] id_for(services@, local[n]) == Some(p.1);
                            assert(local[n] == local_services@[n]@);
                        }
                        if exists|n: int| 0 <= n < i && #[trigger] id_for(services@, local_services@[n]@) == Some(p.1) {
                            let n = choose|n: int| 0 <= n < i && #[trigger] id_for(services@, local_services@[n]@) == Some(p.1);
                            assert(local[n] == local_services@[n]@);
                        }
                    }
                }
                return LocalChecks {
                    host_id,
                    add_host: stored_host.is_none(),
                    added,
                    error: Some(MaremmaError::ServiceNotFoundByName(local_services[i].clone())),
                };
            },
            Some(service_id) => {
                let p = (host_id, service_id);
                let ghost before = added@;
                if !contains_pair(existing, p) && !contains_pair(&added, p) {
                    added.push(p);
                    proof {
                        assert forall|k: int, l: int| 0 <= k < l < added@.len() implies added@[k] != added@[l] by {
                            if l == added@.len() - 1 {
                                assert(added@[k] == before[k]);
                            }
                        }
                        assert forall|q: (u128, u128)| #[trigger] added@.contains(q) <==> (before.contains(q) || q == p) by {
                            if added@.contains(q) {
                                let k = choose|k: int| 0 <= k < added@.len() && added@[k] == q;
                                if k < before.len() {
                                    assert(before[k] == q);
                                }
                            }
                            if before.contains(q) {
                                let k = choose|k: int| 0 <= k < before.len() && before[k] == q;
                                assert(added@[k] == q);
                            }
                            if q == p {
                                assert(added@[before.len() as int] == q);
                            }
                        }
                    }
                }
                proof {
                    assert forall|q: (u128, u128)| #[trigger] added@.contains(q) <==> (q.0 == host_id && !existing@.contains(q)
                        && exists|n: int| 0 <= n < i + 1 && #[trigger] id_for(services@, local_services@[n]@) == Some(q.1)) by {
                        if q == p {
                            assert(id_for(services@, local_services@[i as int]@) == Some(q.1));
                        }
                        if exists|n: int| 0 <= n < i + 1 && #[trigger] id_for(services@, local_services@[n]@) == Some(q.1) {
                            let n = choose|n: int| 0 <= n < i + 1 && #[trigger] id_for(services@, local_services@[n]@) == Some(q.1);
                            if n == i && q.0 == host_id {
                                assert(q == p);
                            }
                        }
                    }
                }
            },
        }
        i += 1;
    }
    proof {
        assert(first_unstored(services@, local) is None);
        assert forall|p: (u128, u128)| #[trigger] added@.contains(p) <==> local_added(p, host_id, services@, local, local.len() as int, existing@) by {
            if exists|n: int| 0 <= n < local.len() && n < local.len() && #[trigger] id_for(services@, local[n]) == Some(p.1) {
                let n = choose|n: int| 0 <= n < local.len() && n < local.len() && #[trigger] id_for(services@, local[n]) == Some(p.1);
                assert(local[n] == local_services@[n]@);
            }
            if exists|n: int| 0 <= n < i && #[trigger] id_for(services@, local_services@[n]@) == Some(p.1) {
                let n = choose|n: int| 0 <= n < i && #[trigger] id_for(services@, local_services@[n]@) == Some(p.1);
                assert(local[n] == local_services@[n]@);
            }
        }
    }
    LocalChecks { host_id, add_host: stored_host.is_none(), added, error: None }
}

/// The local checks to add to `host_id`, given the stored `existing` ones: for each local
/// service before `bound` that is stored, its check on that host unless already there.
pub open spec fn local_added(p: (u128, u128), host_id: u128, services: Seq<(String, u128)>, local: Seq<Seq<char>>, bound: int, existing: Seq<(u128, u128)>) -> bool {
    p.0 == host_id && !existing.contains(p) && exists|n: int|
        0 <= n < local.len() && n < bound && #[trigger] id_for(services, local[n]) == Some(p.1)
}

/// Updating from an unchanged configuration a second time changes nothing more: it adds no
/// linked checks and no local checks, prunes nothing (every row left by the first update is
/// one the configuration makes), and the reset of stuck checks leaves each status as the
/// first reset did. `added` and `local1` are what the first update added, `again` and
/// `local2` what the second would add, `bound` how far through the local services both got.
pub proof fn second_configuration_update_changes_nothing(
    links: Seq<(u128, u128)>,
    members: Seq<(u128, u128)>,
    existing: Seq<(u128, u128)>,
    added: Seq<(u128, u128)>,
    again: Seq<(u128, u128)>,
    host_id: u128,
    services: Seq<(String, u128)>,
    local: Seq<Seq<char>>,
    bound: int,
    local1: Seq<(u128, u128)>,
    local2: Seq<(u128, u128)>,
    kept_ids: Seq<u128>,
    keep: Seq<bool>,
    status: ServiceStatus,
    last_check: i64,
    now: i64,
)
    requires
        forall|p: (u128, u128)| #[trigger] added.contains(p) <==> (linked_check(links, members, p.0, p.1) && !existing.contains(p)),
        forall|p: (u128, u128)| #[trigger] again.contains(p) <==> (linked_check(links, members, p.0, p.1) && !(existing + added + local1).contains(p)),
        forall|p: (u128, u128)| #[trigger] local1.contains(p) <==> local_added(p, host_id, services, local, bound, existing + added),
        forall|p: (u128, u128)| #[trigger] local2.contains(p) <==> local_added(p, host_id, services, local, bound, existing + added + local1 + again),
        kept_ids.len() == keep.len(),
        forall|i: int| 0 <= i < keep.len() ==> keep[i],
    ensures
        again.len() == 0,
        local2.len() == 0,
        unkept(kept_ids, keep).len() == 0,
        status_after_config_update(status_after_config_update(status, last_check, now), last_check, now)
            == status_after_config_update(status, last_check, now),
{
    if again.len() > 0 {
        let p = again[0];
        assert(again.contains(p));
        added_checks_cover_the_links(links, members, existing, added, p.0, p.1);
        let k = choose|k: int| 0 <= k < (existing + added).len() && (existing + added)[k] == p;
        assert((existing + added + local1)[k] == p);
    }
    if local2.len() > 0 {
        let p = local2[0];
        assert(local2.contains(p));
        let all = existing + added + local1 + again;
        if (existing + added).contains(p) {
            let k = choose|k: int| 0 <= k < (existing + added).len() && (existing + added)[k] == p;
            assert(all[k] == p);
        } else {
            assert(local1.contains(p));
            let k = choose|k: int| 0 <= k < local1.len() && local1[k] == p;
            assert(all[(existing + added).len() + k] == p);
        }
    }
    nothing_pruned_when_all_kept(kept_ids, keep);
    config_update_reset_is_idempotent(status, last_check, now);
}

} // verus!
