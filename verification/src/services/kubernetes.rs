//! Kubernetes checks: which pods are unhealthy or not ready, and what the cluster's answers
//! mean.

use vstd::prelude::*;
use crate::errors::MaremmaError;
use crate::json::{
    JsonValue, lookup, text_or, overlay_text, overlay_number, opt_text, is_field_error, get,
    field_error, extract_string, extract_opt_text, extract_number,
};
use crate::schedule::{CronSchedule, overlay_cron, extract_cron};
use crate::services::http::{opt_num16, narrow16, widen16};
use crate::status::ServiceStatus;
use crate::text::{push_str, push_decimal, push_signed_decimal, nat_to_decimal, int_to_decimal, join, join_seq, views, str_eq};

verus! {

/// The Kubernetes operation performed by a service check.
#[derive(Clone, Copy, Debug, PartialEq, Eq, Structural)]
pub enum KubernetesCheck {
    /// Confirm that the API server responds to a version request.
    ApiAvailable,
    /// Report pods that are neither running nor completed successfully.
    UnhealthyPods,
    /// Report active pods that are not in the Ready condition.
    UnreadyPods,
}

impl Default for KubernetesCheck {
    fn default() -> (r: Self)
        ensures
            r == KubernetesCheck::ApiAvailable,
    {
        KubernetesCheck::ApiAvailable
    }
}

/// The check a configuration names, in snake case.
pub open spec fn kubernetes_check_of_key(s: Seq<char>) -> Option<KubernetesCheck> {
    if s == "api_available"@ {
        Some(KubernetesCheck::ApiAvailable)
    } else if s == "unhealthy_pods"@ {
        Some(KubernetesCheck::UnhealthyPods)
    } else if s == "unready_pods"@ {
        Some(KubernetesCheck::UnreadyPods)
    } else {
        None
    }
}

/// The snake-case name a check is configured by.
pub open spec fn kubernetes_check_key(k: KubernetesCheck) -> Seq<char> {
    match k {
        KubernetesCheck::ApiAvailable => "api_available"@,
        KubernetesCheck::UnhealthyPods => "unhealthy_pods"@,
        KubernetesCheck::UnreadyPods => "unready_pods"@,
    }
}

/// Each check is named by its own snake-case name and by no other text: the configured
/// name `api_available` gives the API check, `unhealthy_pods` the unhealthy-pods check and
/// `unready_pods` the unready-pods check.
pub proof fn kubernetes_check_names_round_trip(k: KubernetesCheck, s: Seq<char>)
    ensures
        kubernetes_check_of_key(kubernetes_check_key(k)) == Some(k),
        kubernetes_check_of_key(s) == Some(k) ==> s == kubernetes_check_key(k),
{
    reveal_strlit("api_available");
    reveal_strlit("unhealthy_pods");
    reveal_strlit("unready_pods");
    assert("unhealthy_pods"@[0] != "api_available"@[0]);
    assert("unready_pods"@[0] != "api_available"@[0]);
    assert("unready_pods"@.len() != "unhealthy_pods"@.len());
}

/// How a field overlays the check to perform: a missing field keeps the default, a string
/// must name a check, anything else is refused (`None`).
pub open spec fn overlay_kubernetes_check(field: Option<JsonValue>, default: KubernetesCheck) -> Option<KubernetesCheck> {
    match field {
        None => Some(default),
        Some(JsonValue::Str(s)) => kubernetes_check_of_key(s@),
        Some(_) => None,
    }
}

/// A service that checks a Kubernetes cluster using the configured kube client.
#[derive(Debug)]
pub struct KubernetesService {
    /// Name of the service.
    pub name: String,
    /// The Kubernetes operation to perform.
    pub check: KubernetesCheck,
    /// Limit pod checks to this namespace.
    pub namespace: Option<String>,
    /// Schedule for the service.
    pub cron_schedule: CronSchedule,
    /// Add random jitter in 0..n seconds to the check.
    pub jitter: Option<u16>,
}

/// A condition of a pod.
#[derive(Debug)]
pub struct PodCondition {
    /// The condition's type, such as `Ready`
    pub condition_type: String,
    /// Its status, such as `True`
    pub status: String,
}

/// The state of one container of a pod.
#[derive(Debug)]
pub struct ContainerState {
    /// The container's name
    pub name: String,
    /// Is it ready?
    pub ready: bool,
    /// How often it has restarted
    pub restart_count: i32,
}

/// What the checks read of a pod.
#[derive(Debug)]
pub struct PodInfo {
    /// The pod's namespace
    pub namespace: Option<String>,
    /// The pod's name
    pub name: Option<String>,
    /// The pod's phase, such as `Running`
    pub phase: Option<String>,
    /// The pod's conditions
    pub conditions: Vec<PodCondition>,
    /// The states of the pod's containers
    pub containers: Vec<ContainerState>,
}

/// A pod's namespace and name, `default` and `unknown` where missing, joined by `/`.
pub open spec fn pod_label(p: PodInfo) -> Seq<char> {
    (match p.namespace {
        Some(n) => n@,
        None => "default"@,
    }) + "/"@ + (match p.name {
        Some(n) => n@,
        None => "unknown"@,
    })
}

/// A pod's phase, `Unknown` where missing.
pub open spec fn phase_text(p: PodInfo) -> Seq<char> {
    match p.phase {
        Some(ph) => ph@,
        None => "Unknown"@,
    }
}

/// Is a pod's phase the given one?
pub open spec fn phase_is(p: PodInfo, phase: Seq<char>) -> bool {
    p.phase matches Some(ph) && ph@ == phase
}

/// How an unhealthy pod is reported; pods that are running or succeeded are not.
pub open spec fn unhealthy_line(p: PodInfo) -> Option<Seq<char>> {
    if phase_is(p, "Running"@) || phase_is(p, "Succeeded"@) {
        None
    } else {
        Some(pod_label(p) + "="@ + phase_text(p))
    }
}

/// The status of a pod's first condition of type `Ready`, if it has one.
pub open spec fn ready_condition(cs: Seq<PodCondition>) -> Option<Seq<char>>
    decreases cs.len(),
{
    if cs.len() == 0 {
        None
    } else if cs[0].condition_type@ == "Ready"@ {
        Some(cs[0].status@)
    } else {
        ready_condition(cs.drop_first())
    }
}

/// The names of the containers that are not ready.
pub open spec fn unready_names(cs: Seq<ContainerState>) -> Seq<Seq<char>>
    decreases cs.len(),
{
    if cs.len() == 0 {
        Seq::empty()
    } else {
        unready_names(cs.drop_last()) + (if cs.last().ready {
            Seq::empty()
        } else {
            seq![cs.last().name@]
        })
    }
}

/// The restarts of some containers, summed.
pub open spec fn restart_total(cs: Seq<ContainerState>) -> int
    decreases cs.len(),
{
    if cs.len() == 0 {
        0
    } else {
        restart_total(cs.drop_last()) + cs.last().restart_count
    }
}

/// Does every partial sum of the restarts fit in 32 bits?
pub open spec fn restarts_fit(cs: Seq<ContainerState>) -> bool {
    forall|k: int| 0 <= k <= cs.len() ==> i32::MIN <= #[trigger] restart_total(cs.take(k)) <= i32::MAX
}

/// How a pod that is not ready is reported; pods that succeeded, or that run and are
/// ready, are not.
pub open spec fn unready_line(p: PodInfo) -> Option<Seq<char>> {
    if phase_is(p, "Succeeded"@) {
        None
    } else if !phase_is(p, "Running"@) {
        Some(pod_label(p) + " phase="@ + phase_text(p))
    } else if ready_condition(p.conditions@) == Some("True"@) {
        None
    } else {
        Some(pod_label(p) + " ready=false unready=["@ + join_seq(unready_names(p.containers@), ","@)
            + "] restarts="@ + int_to_decimal(restart_total(p.containers@)))
    }
}

/// A pod counts as ready exactly when its first condition of type `Ready` has status
/// `True`; conditions of other types never decide it.
pub proof fn readiness_comes_from_the_ready_condition(cs: Seq<PodCondition>)
    ensures
        (ready_condition(cs) == Some("True"@)) <==> exists|i: int|
            0 <= i < cs.len() && cs[i].condition_type@ == "Ready"@ && cs[i].status@ == "True"@
                && forall|j: int| 0 <= j < i ==> cs[j].condition_type@ != "Ready"@,
    decreases cs.len(),
{
    if cs.len() > 0 {
        readiness_comes_from_the_ready_condition(cs.drop_first());
        let rest = cs.drop_first();
        if cs[0].condition_type@ != "Ready"@ {
            if exists|i: int|
                0 <= i < rest.len() && rest[i].condition_type@ == "Ready"@ && rest[i].status@ == "True"@
                    && forall|j: int| 0 <= j < i ==> rest[j].condition_type@ != "Ready"@ {
                let i = choose|i: int|
                    0 <= i < rest.len() && rest[i].condition_type@ == "Ready"@ && rest[i].status@ == "True"@
                        && forall|j: int| 0 <= j < i ==> rest[j].condition_type@ != "Ready"@;
                assert(cs[i + 1] == rest[i]);
                assert forall|j: int| 0 <= j < i + 1 implies cs[j].condition_type@ != "Ready"@ by {
                    if j > 0 {
                        assert(cs[j] == rest[j - 1]);
                    }
                }
            }
            if exists|i: int|
                0 <= i < cs.len() && cs[i].condition_type@ == "Ready"@ && cs[i].status@ == "True"@
                    && forall|j: int| 0 <= j < i ==> cs[j].condition_type@ != "Ready"@ {
                let i = choose|i: int|
                    0 <= i < cs.len() && cs[i].condition_type@ == "Ready"@ && cs[i].status@ == "True"@
                        && forall|j: int| 0 <= j < i ==> cs[j].condition_type@ != "Ready"@;
                assert(i > 0);
                assert(rest[i - 1] == cs[i]);
                assert forall|j: int| 0 <= j < i - 1 implies rest[j].condition_type@ != "Ready"@ by {
                    assert(rest[j] == cs[j + 1]);
                }
            }
        } else {
            if exists|i: int|
                0 <= i < cs.len() && cs[i].condition_type@ == "Ready"@ && cs[i].status@ == "True"@
                    && forall|j: int| 0 <= j < i ==> cs[j].condition_type@ != "Ready"@ {
                let i = choose|i: int|
                    0 <= i < cs.len() && cs[i].condition_type@ == "Ready"@ && cs[i].status@ == "True"@
                        && forall|j: int| 0 <= j < i ==> cs[j].condition_type@ != "Ready"@;
                if i > 0 {
                    assert(cs[0].condition_type@ != "Ready"@);
                }
            }
        }
    }
}

/// A running pod none of whose conditions has type `Ready` is reported as not ready,
/// whatever its other conditions say.
pub proof fn running_pod_without_ready_condition_is_reported(p: PodInfo)
    requires
        phase_is(p, "Running"@),
        forall|i: int| 0 <= i < p.conditions@.len() ==> p.conditions@[i].condition_type@ != "Ready"@,
    ensures
        unready_line(p) is Some,
{
    reveal_strlit("Running");
    reveal_strlit("Succeeded");
    assert("Running"@.len() != "Succeeded"@.len());
    assert(!phase_is(p, "Succeeded"@));
    readiness_comes_from_the_ready_condition(p.conditions@);
    assert(ready_condition(p.conditions@) != Some("True"@));
}

/// The reports of some pods, in order.
pub open spec fn pod_lines(pods: Seq<PodInfo>, unready: bool) -> Seq<Seq<char>>
    decreases pods.len(),
{
    if pods.len() == 0 {
        Seq::empty()
    } else {
        let line = if unready {
            unready_line(pods.last())
        } else {
            unhealthy_line(pods.last())
        };
        pod_lines(pods.drop_last(), unready) + match line {
            Some(l) => seq![l],
            None => Seq::empty(),
        }
    }
}

fn pod_label_exec(p: &PodInfo) -> (r: String)
    ensures
        r@ == pod_label(*p),
{
    let mut t = String::new();
    match &p.namespace {
        Some(n) => push_str(&mut t, n.as_str()),
        None => push_str(&mut t, "default"),
    }
    push_str(&mut t, "/");
    match &p.name {
        Some(n) => push_str(&mut t, n.as_str()),
        None => push_str(&mut t, "unknown"),
    }
    t
}

fn phase_is_exec(p: &PodInfo, phase: &str) -> (r: bool)
    ensures
        r == phase_is(*p, phase@),
{
    match &p.phase {
        Some(ph) => str_eq(ph.as_str(), phase),
        None => false,
    }
}

fn push_phase(t: &mut String, p: &PodInfo)
    ensures
        final(t)@ == old(t)@ + phase_text(*p),
{
    match &p.phase {
        Some(ph) => push_str(t, ph.as_str()),
        None => push_str(t, "Unknown"),
    }
}

fn unhealthy_line_exec(p: &PodInfo) -> (r: Option<String>)
    ensures
        match unhealthy_line(*p) {
            Some(l) => r matches Some(s) && s@ == l,
            None => r is None,
        },
{
    if phase_is_exec(p, "Running") || phase_is_exec(p, "Succeeded") {
        return None;
    }
    let mut t = pod_label_exec(p);
    push_str(&mut t, "=");
    push_phase(&mut t, p);
    Some(t)
}

fn ready_condition_is_true(cs: &Vec<PodCondition>) -> (r: bool)
    ensures
        r == (ready_condition(cs@) == Some("True"@)),
{
    let mut i: usize = 0;
    proof {
        assert(cs@.skip(0) =~= cs@);
    }
    while i < cs.len()
        invariant
            i <= cs@.len(),
            ready_condition(cs@) == ready_condition(cs@.skip(i as int)),
        decreases cs@.len() - i,
    {
        proof {
            assert(cs@.skip(i as int).drop_first() =~= cs@.skip(i + 1));
        }
        if str_eq(cs[i].condition_type.as_str(), "Ready") {
            return str_eq(cs[i].status.as_str(), "True");
        }
        i += 1;
    }
    proof {
        assert(cs@.skip(i as int) =~= Seq::<PodCondition>::empty());
    }
    false
}

fn unready_names_exec(cs: &Vec<ContainerState>) -> (r: Vec<String>)
    ensures
        views(r@) == unready_names(cs@),
{
    let mut out: Vec<String> = Vec::new();
    let mut i: usize = 0;
    while i < cs.len()
        invariant
            i <= cs@.len(),
            views(out@) == unready_names(cs@.take(i as int)),
        decreases cs@.len() - i,
    {
        proof {
            assert(cs@.take(i + 1).drop_last() =~= cs@.take(i as int));
        }
        if !cs[i].ready {
            let n = cs[i].name.clone();
            proof {
                assert(views(out@.push(n)) =~= views(out@).push(n@));
            }
            out.push(n);
        } else {
            proof {
                assert(views(out@) =~= views(out@) + Seq::<Seq<char>>::empty());
            }
        }
        i += 1;
    }
    proof {
        assert(cs@.take(i as int) =~= cs@);
    }
    out
}

fn restart_total_exec(cs: &Vec<ContainerState>) -> (r: i32)
    requires
        restarts_fit(cs@),
    ensures
        r == restart_total(cs@),
{
    let mut total: i32 = 0;
    let mut i: usize = 0;
    proof {
        assert(cs@.take(0) =~= Seq::<ContainerState>::empty());
    }
    while i < cs.len()
        invariant
            i <= cs@.len(),
            restarts_fit(cs@),
            total == restart_total(cs@.take(i as int)),
        decreases cs@.len() - i,
    {
        proof {
            assert(cs@.take(i + 1).drop_last() =~= cs@.take(i as int));
            assert(i32::MIN <= restart_total(cs@.take(i + 1)) <= i32::MAX);
        }
        total = total + cs[i].restart_count;
        i += 1;
    }
    proof {
        assert(cs@.take(i as int) =~= cs@);
    }
    total
}

fn unready_line_exec(p: &PodInfo) -> (r: Option<String>)
    requires
        phase_is(*p, "Running"@) && !phase_is(*p, "Succeeded"@) && ready_condition(p.conditions@)
            != Some("True"@) ==> restarts_fit(p.containers@),
    ensures
        match unready_line(*p) {
            Some(l) => r matches Some(s) && s@ == l,
            None => r is None,
        },
{
    if phase_is_exec(p, "Succeeded") {
        return None;
    }
    if !phase_is_exec(p, "Running") {
        let mut t = pod_label_exec(p);
        push_str(&mut t, " phase=");
        push_phase(&mut t, p);
        return Some(t);
    }
    if ready_condition_is_true(&p.conditions) {
        return None;
    }
    let names = unready_names_exec(&p.containers);
    let restarts = restart_total_exec(&p.containers);
    let mut t = pod_label_exec(p);
    push_str(&mut t, " ready=false unready=[");
    let joined = join(&names, ",");
    push_str(&mut t, joined.as_str());
    push_str(&mut t, "] restarts=");
    push_signed_decimal(&mut t, restarts as i128);
    Some(t)
}

/// Does every pod whose restarts are reported have restarts that fit in 32 bits?
pub open spec fn reported_restarts_fit(pods: Seq<PodInfo>) -> bool {
    forall|i: int|
        0 <= i < pods.len() && phase_is(#[trigger] pods[i], "Running"@) && !phase_is(pods[i], "Succeeded"@)
            && ready_condition(pods[i].conditions@) != Some("True"@) ==> restarts_fit(pods[i].containers@)
}

fn pod_lines_exec(pods: &Vec<PodInfo>, unready: bool) -> (r: Vec<String>)
    requires
        unready ==> reported_restarts_fit(pods@),
    ensures
        views(r@) == pod_lines(pods@, unready),
{
    let mut out: Vec<String> = Vec::new();
    let mut i: usize = 0;
    while i < pods.len()
        invariant
            i <= pods@.len(),
            unready ==> reported_restarts_fit(pods@),
            views(out@) == pod_lines(pods@.take(i as int), unready),
        decreases pods@.len() - i,
    {
        proof {
            assert(pods@.take(i + 1).drop_last() =~= pods@.take(i as int));
            assert(pods@.take(i + 1).last() == pods@[i as int]);
        }
        let line = if unready {
            unready_line_exec(&pods[i])
        } else {
            unhealthy_line_exec(&pods[i])
        };
        match line {
            Some(l) => {
                proof {
                    assert(views(out@.push(l)) =~= views(out@).push(l@));
                }
                out.push(l);
            },
            None => {
                proof {
                    assert(views(out@) =~= views(out@) + Seq::<Seq<char>>::empty());
                }
            },
        }
        i += 1;
    }
    proof {
        assert(pods@.take(i as int) =~= pods@);
    }
    out
}

/// The pods that are neither running nor completed successfully, reported as
/// `namespace/name=phase`.
pub fn unhealthy_pods(pods: &Vec<PodInfo>) -> (r: Vec<String>)
    ensures
        views(r@) == pod_lines(pods@, false),
{
    pod_lines_exec(pods, false)
}

/// The active pods that are not ready: those not running, reported with their phase, and
/// running pods without a `Ready` condition that is `True`, reported with their unready
/// containers and their restarts.
pub fn unready_pods(pods: &Vec<PodInfo>) -> (r: Vec<String>)
    requires
        reported_restarts_fit(pods@),
    ensures
        views(r@) == pod_lines(pods@, true),
{
    pod_lines_exec(pods, true)
}

/// The result when no client for the cluster could be set up.
pub fn client_failure_result(error: &str) -> (r: (String, ServiceStatus))
    ensures
        r.0@ == "UNKNOWN: Unable to configure Kubernetes client: "@ + error@,
        r.1 == ServiceStatus::Unknown,
{
    let mut t = String::new();
    push_str(&mut t, "UNKNOWN: Unable to configure Kubernetes client: ");
    push_str(&mut t, error);
    (t, ServiceStatus::Unknown)
}

fn critical_error(error: &str) -> (r: (String, ServiceStatus))
    ensures
        r.0@ == "CRITICAL: "@ + error@,
        r.1 == ServiceStatus::Critical,
{
    let mut t = String::new();
    push_str(&mut t, "CRITICAL: ");
    push_str(&mut t, error);
    (t, ServiceStatus::Critical)
}

/// The restarts of all containers of all pods, summed.
pub open spec fn all_restarts(pods: Seq<PodInfo>) -> int
    decreases pods.len(),
{
    if pods.len() == 0 {
        0
    } else {
        all_restarts(pods.drop_last()) + restart_total(pods.last().containers@)
    }
}

/// Does every partial sum of all pods' restarts fit in 32 bits?
pub open spec fn all_restarts_fit(pods: Seq<PodInfo>) -> bool {
    &&& forall|k: int| 0 <= k <= pods.len() ==> i32::MIN <= #[trigger] all_restarts(pods.take(k)) <= i32::MAX
    &&& forall|i: int, k: int|
        0 <= i < pods.len() && 0 <= k <= pods[i].containers@.len() ==> i32::MIN <= all_restarts(pods.take(i))
            + #[trigger] restart_total(pods[i].containers@.take(k)) <= i32::MAX
}

fn all_restarts_exec(pods: &Vec<PodInfo>) -> (r: i32)
    requires
        all_restarts_fit(pods@),
    ensures
        r == all_restarts(pods@),
{
    let mut total: i32 = 0;
    let mut i: usize = 0;
    proof {
        assert(pods@.take(0) =~= Seq::<PodInfo>::empty());
    }
    while i < pods.len()
        invariant
            i <= pods@.len(),
            all_restarts_fit(pods@),
            total == all_restarts(pods@.take(i as int)),
        decreases pods@.len() - i,
    {
        let cs = &pods[i].containers;
        let mut j: usize = 0;
        let ghost base = total as int;
        proof {
            assert(cs@.take(0) =~= Seq::<ContainerState>::empty());
        }
        while j < cs.len()
            invariant
                j <= cs@.len(),
                all_restarts_fit(pods@),
                i < pods@.len(),
                cs@ == pods@[i as int].containers@,
                base == all_restarts(pods@.take(i as int)),
                total == base + restart_total(cs@.take(j as int)),
            decreases cs@.len() - j,
        {
            proof {
                assert(cs@.take(j + 1).drop_last() =~= cs@.take(j as int));
                assert(i32::MIN <= all_restarts(pods@.take(i as int)) + restart_total(
                    pods@[i as int].containers@.take(j + 1),
                ) <= i32::MAX);
            }
            total = total + cs[j].restart_count;
            j += 1;
        }
        proof {
            assert(cs@.take(j as int) =~= cs@);
            assert(pods@.take(i + 1).drop_last() =~= pods@.take(i as int));
        }
        i += 1;
    }
    proof {
        assert(pods@.take(i as int) =~= pods@);
    }
    total
}

impl KubernetesService {
    /// What the API server's answer to a version request means: OK with its version, or
    /// critical with the error.
    pub fn api_verdict(answer: Result<String, String>) -> (r: (String, ServiceStatus))
        ensures
            match answer {
                Ok(v) => r.0@ == "OK: Kubernetes "@ + v@ && r.1 == ServiceStatus::OK,
                Err(e) => r.0@ == "CRITICAL: "@ + e@ && r.1 == ServiceStatus::Critical,
            },
    {
        match answer {
            Ok(v) => {
                let mut t = String::new();
                push_str(&mut t, "OK: Kubernetes ");
                push_str(&mut t, v.as_str());
                (t, ServiceStatus::OK)
            },
            Err(e) => critical_error(e.as_str()),
        }
    }

    /// What the list of pods means for the unhealthy pod check: OK when every pod is
    /// running or succeeded, else critical with the number and the reports of the others.
    pub fn unhealthy_verdict(listed: Result<Vec<PodInfo>, String>) -> (r: (String, ServiceStatus))
        ensures
            match listed {
                Ok(pods) => if pod_lines(pods@, false).len() == 0 {
                    r.0@ == "OK: All pods are running or succeeded"@ && r.1 == ServiceStatus::OK
                } else {
                    r.0@ == "CRITICAL: "@ + nat_to_decimal(pod_lines(pods@, false).len())
                        + " pods are not running or succeeded "@ + join_seq(pod_lines(pods@, false), " "@)
                        && r.1 == ServiceStatus::Critical
                },
                Err(e) => r.0@ == "CRITICAL: "@ + e@ && r.1 == ServiceStatus::Critical,
            },
    {
        match listed {
            Ok(pods) => {
                let lines = unhealthy_pods(&pods);
                if lines.len() == 0 {
                    ("OK: All pods are running or succeeded".to_owned(), ServiceStatus::OK)
                } else {
                    let mut t = String::new();
                    push_str(&mut t, "CRITICAL: ");
                    push_decimal(&mut t, lines.len() as u128);
                    push_str(&mut t, " pods are not running or succeeded ");
                    let joined = join(&lines, " ");
                    push_str(&mut t, joined.as_str());
                    (t, ServiceStatus::Critical)
                }
            },
            Err(e) => critical_error(e.as_str()),
        }
    }

    /// What the list of pods means for the unready pod check: OK when no active pod is
    /// unready, with the number of pods and all their restarts; else critical with the
    /// number and the reports of the unready pods.
    pub fn unready_verdict(listed: Result<Vec<PodInfo>, String>) -> (r: (String, ServiceStatus))
        requires
            listed matches Ok(pods) ==> reported_restarts_fit(pods@) && (pod_lines(pods@, true).len() == 0
                ==> all_restarts_fit(pods@)),
        ensures
            match listed {
                Ok(pods) => if pod_lines(pods@, true).len() == 0 {
                    r.0@ == "OK: "@ + nat_to_decimal(pods@.len()) + " pods are ready or completed; restarts="@
                        + int_to_decimal(all_restarts(pods@)) && r.1 == ServiceStatus::OK
                } else {
                    r.0@ == "CRITICAL: "@ + nat_to_decimal(pod_lines(pods@, true).len()) + " pods are not ready: "@
                        + join_seq(pod_lines(pods@, true), " "@) && r.1 == ServiceStatus::Critical
                },
                Err(e) => r.0@ == "CRITICAL: "@ + e@ && r.1 == ServiceStatus::Critical,
            },
    {
        match listed {
            Ok(pods) => {
                let lines = unready_pods(&pods);
                if lines.len() == 0 {
                    let restarts = all_restarts_exec(&pods);
                    let mut t = String::new();
                    push_str(&mut t, "OK: ");
                    push_decimal(&mut t, pods.len() as u128);
                    push_str(&mut t, " pods are ready or completed; restarts=");
                    push_signed_decimal(&mut t, restarts as i128);
                    (t, ServiceStatus::OK)
                } else {
                    let mut t = String::new();
                    push_str(&mut t, "CRITICAL: ");
                    push_decimal(&mut t, lines.len() as u128);
                    push_str(&mut t, " pods are not ready: ");
                    let joined = join(&lines, " ");
                    push_str(&mut t, joined.as_str());
                    (t, ServiceStatus::Critical)
                }
            },
            Err(e) => critical_error(e.as_str()),
        }
    }

    /// The check with a host's own settings laid over it. The fields are read in order:
    /// `name`, `check`, `namespace`, `cron_schedule`, `jitter`; the first refused decides
    /// the error.
    pub fn overlay_host_config(&self, entries: &Vec<(String, JsonValue)>) -> (r: Result<KubernetesService, MaremmaError>)
        ensures
            r is Ok <==> (overlay_kubernetes_check(lookup(entries@, "check"@), self.check) is Some
                && overlay_text(lookup(entries@, "namespace"@), opt_text(self.namespace)) is Some
                && overlay_cron(lookup(entries@, "cron_schedule"@), self.cron_schedule@) is Ok
                && overlay_number(lookup(entries@, "jitter"@), opt_num16(self.jitter), 65535, false) is Some),
            r matches Err(x) ==> if overlay_kubernetes_check(lookup(entries@, "check"@), self.check) is None {
                is_field_error(x, "check"@)
            } else if overlay_text(lookup(entries@, "namespace"@), opt_text(self.namespace)) is None {
                is_field_error(x, "namespace"@)
            } else if overlay_cron(lookup(entries@, "cron_schedule"@), self.cron_schedule@) is Err {
                x is Generic
            } else {
                is_field_error(x, "jitter"@)
            },
            r matches Ok(c) ==> {
                &&& c.name@ == text_or(lookup(entries@, "name"@), self.name@)
                &&& Some(c.check) == overlay_kubernetes_check(lookup(entries@, "check"@), self.check)
                &&& Some(opt_text(c.namespace)) == overlay_text(lookup(entries@, "namespace"@), opt_text(self.namespace))
                &&& Ok::<Seq<char>, bool>(c.cron_schedule@) == overlay_cron(lookup(entries@, "cron_schedule"@), self.cron_schedule@)
                &&& Some(opt_num16(c.jitter)) == overlay_number(lookup(entries@, "jitter"@), opt_num16(self.jitter), 65535, false)
            },
    {
        let name = extract_string(entries, "name", self.name.as_str());
        let check = match get(entries, "check") {
            None => self.check,
            Some(JsonValue::Str(s)) => if str_eq(s.as_str(), "api_available") {
                KubernetesCheck::ApiAvailable
            } else if str_eq(s.as_str(), "unhealthy_pods") {
                KubernetesCheck::UnhealthyPods
            } else if str_eq(s.as_str(), "unready_pods") {
                KubernetesCheck::UnreadyPods
            } else {
                return Err(field_error("check"));
            },
            Some(_) => {
                return Err(field_error("check"));
            },
        };
        let namespace = extract_opt_text(entries, "namespace", &self.namespace)?;
        let cron_schedule = extract_cron(entries, "cron_schedule", &self.cron_schedule)?;
        let jitter = extract_number(entries, "jitter", widen16(self.jitter), 65535, false)?;
        Ok(KubernetesService { name, check, namespace, cron_schedule, jitter: narrow16(jitter) })
    }
}

} // verus!
