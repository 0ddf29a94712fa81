//! Per-kind status extraction, the item built from each raw object, and the
//! kinds watched by default.
use vstd::prelude::*;
use vstd::string::*;
use k8s_openapi::jiff::{RoundMode, Timestamp, TimestampDifference, Unit};
use crate::items::{deleted_marker, status_rank, ItemView, K8sItem, ResourceKind, StatusHealth};
use crate::objects::{
    ContainerStatus, CronJob, DaemonSet, Deployment, Ingress, Job, Namespace, Node,
    ObjectMeta, PersistentVolume, PersistentVolumeClaim, Pod, RawObject, Secret, Service,
    StatefulSet, Time,
};
use crate::text::{int_text, nat_text, push_int, push_nat, same_text, text_of};

verus! {

/// The text of an optional string, or `default` when it is absent.
pub open spec fn text_or(o: Option<String>, default: Seq<char>) -> Seq<char> {
    match o {
        Some(s) => s@,
        None => default,
    }
}

fn text_or_exec(o: &Option<String>, default: &str) -> (r: String)
    ensures
        r@ == text_or(*o, default@),
{
    match o {
        Some(s) => text_of(s.as_str()),
        None => text_of(default),
    }
}

/// Sort priority of a status string, through its health tier.
pub fn status_priority(status: &str) -> (r: u8)
    ensures
        r == status_rank(status@),
{
    StatusHealth::classify(status).priority()
}

// ── Pod ─────────────────────────────────────────────────────────────────────

/// What one regular container's state says of the pod, if anything: a waiting
/// reason other than `ContainerCreating` / `PodInitializing`, verbatim; else,
/// for a nonzero exit, the termination reason or `Error`.
pub open spec fn container_verdict(c: ContainerStatus) -> Option<Seq<char>> {
    match c.state {
        None => None,
        Some(st) => {
            let waiting_reason = match st.waiting {
                Some(w) => match w.reason {
                    Some(r) => if r@ != "ContainerCreating"@ && r@ != "PodInitializing"@ {
                        Some(r@)
                    } else {
                        None
                    },
                    None => None,
                },
                None => None,
            };
            if waiting_reason is Some {
                waiting_reason
            } else {
                match st.terminated {
                    Some(t) => if t.exit_code != 0 {
                        Some(text_or(t.reason, "Error"@))
                    } else {
                        None
                    },
                    None => None,
                }
            }
        },
    }
}

/// The first verdict among the containers from index `i` on.
pub open spec fn first_verdict(cs: Seq<ContainerStatus>, i: int) -> Option<Seq<char>>
    decreases cs.len() - i,
{
    if i < 0 || i >= cs.len() {
        None
    } else if container_verdict(cs[i]) is Some {
        container_verdict(cs[i])
    } else {
        first_verdict(cs, i + 1)
    }
}

/// The waiting reason of a container, whatever it is.
pub open spec fn waiting_reason(c: ContainerStatus) -> Option<Seq<char>> {
    match c.state {
        Some(st) => match st.waiting {
            Some(w) => match w.reason {
                Some(r) => Some(r@),
                None => None,
            },
            None => None,
        },
        None => None,
    }
}

/// The first waiting reason among the init containers from index `i` on.
pub open spec fn first_waiting(cs: Seq<ContainerStatus>, i: int) -> Option<Seq<char>>
    decreases cs.len() - i,
{
    if i < 0 || i >= cs.len() {
        None
    } else if waiting_reason(cs[i]) is Some {
        waiting_reason(cs[i])
    } else {
        first_waiting(cs, i + 1)
    }
}

/// An init container that terminated with exit code 0.
pub open spec fn init_done(c: ContainerStatus) -> bool {
    match c.state {
        Some(st) => match st.terminated {
            Some(t) => t.exit_code == 0,
            None => false,
        },
        None => false,
    }
}

/// How many of the first `n` init containers are done.
pub open spec fn done_count(cs: Seq<ContainerStatus>, n: int) -> nat
    decreases n,
{
    if n <= 0 {
        0
    } else {
        done_count(cs, n - 1) + if init_done(cs[n - 1]) { 1nat } else { 0nat }
    }
}

/// What the init containers say of the pod, if anything: `Init:<reason>` for
/// the first waiting one, else `Init:<done>/<total>` while some are not done.
pub open spec fn init_verdict(cs: Seq<ContainerStatus>) -> Option<Seq<char>> {
    if first_waiting(cs, 0) is Some {
        Some("Init:"@ + first_waiting(cs, 0)->0)
    } else if done_count(cs, cs.len() as int) < cs.len() {
        Some("Init:"@ + nat_text(done_count(cs, cs.len() as int)) + "/"@ + nat_text(cs.len()))
    } else {
        None
    }
}

/// The status of a pod: `Terminating` when deletion is under way; else what
/// the regular containers say; else what the init containers say; else the
/// phase, or `Unknown`.
pub open spec fn pod_text(p: Pod) -> Seq<char> {
    if p.metadata.deletion_timestamp is Some {
        "Terminating"@
    } else {
        match p.status {
            None => "Unknown"@,
            Some(st) => {
                let cv = match st.container_statuses {
                    Some(v) => first_verdict(v@, 0),
                    None => None,
                };
                let iv = match st.init_container_statuses {
                    Some(v) => init_verdict(v@),
                    None => None,
                };
                if cv is Some {
                    cv->0
                } else if iv is Some {
                    iv->0
                } else {
                    text_or(st.phase, "Unknown"@)
                }
            },
        }
    }
}

fn container_verdict_exec(c: &ContainerStatus) -> (r: Option<String>)
    ensures
        match r {
            Some(s) => container_verdict(*c) == Some(s@),
            None => container_verdict(*c) is None,
        },
{
    if let Some(st) = &c.state {
        if let Some(w) = &st.waiting {
            if let Some(reason) = &w.reason {
                if !same_text(reason.as_str(), "ContainerCreating") && !same_text(
                    reason.as_str(),
                    "PodInitializing",
                ) {
                    return Some(text_of(reason.as_str()));
                }
            }
        }
        if let Some(t) = &st.terminated {
            if t.exit_code != 0 {
                return Some(text_or_exec(&t.reason, "Error"));
            }
        }
    }
    None
}

fn first_verdict_exec(cs: &Vec<ContainerStatus>) -> (r: Option<String>)
    ensures
        match r {
            Some(s) => first_verdict(cs@, 0) == Some(s@),
            None => first_verdict(cs@, 0) is None,
        },
{
    let mut i: usize = 0;
    while i < cs.len()
        invariant
            i <= cs.len(),
            first_verdict(cs@, 0) == first_verdict(cs@, i as int),
        decreases cs.len() - i,
    {
        let v = container_verdict_exec(&cs[i]);
        if v.is_some() {
            return v;
        }
        i = i + 1;
    }
    None
}

fn waiting_reason_exec(c: &ContainerStatus) -> (r: Option<&String>)
    ensures
        match r {
            Some(s) => waiting_reason(*c) == Some(s@),
            None => waiting_reason(*c) is None,
        },
{
    match &c.state {
        Some(st) => match &st.waiting {
            Some(w) => match &w.reason {
                Some(reason) => Some(reason),
                None => None,
            },
            None => None,
        },
        None => None,
    }
}

fn init_done_exec(c: &ContainerStatus) -> (r: bool)
    ensures
        r == init_done(*c),
{
    match &c.state {
        Some(st) => match &st.terminated {
            Some(t) => t.exit_code == 0,
            None => false,
        },
        None => false,
    }
}

fn init_verdict_exec(cs: &Vec<ContainerStatus>) -> (r: Option<String>)
    ensures
        match r {
            Some(s) => init_verdict(cs@) == Some(s@),
            None => init_verdict(cs@) is None,
        },
{
    let mut i: usize = 0;
    while i < cs.len()
        invariant
            i <= cs.len(),
            first_waiting(cs@, 0) == first_waiting(cs@, i as int),
        decreases cs.len() - i,
    {
        if let Some(reason) = waiting_reason_exec(&cs[i]) {
            let mut out = text_of("Init:");
            out.append(reason.as_str());
            return Some(out);
        }
        i = i + 1;
    }
    let mut done: usize = 0;
    let mut j: usize = 0;
    while j < cs.len()
        invariant
            j <= cs.len(),
            done == done_count(cs@, j as int),
            done <= j,
        decreases cs.len() - j,
    {
        if init_done_exec(&cs[j]) {
            done = done + 1;
        }
        j = j + 1;
    }
    if done < cs.len() {
        let mut out = text_of("Init:");
        push_nat(&mut out, done as u64);
        out.append("/");
        push_nat(&mut out, cs.len() as u64);
        Some(out)
    } else {
        None
    }
}

/// Status of a pod, as the orchestration CLI shows it.
pub fn pod_status(pod: &Pod) -> (r: String)
    ensures
        r@ == pod_text(*pod),
{
    if pod.metadata.deletion_timestamp.is_some() {
        return text_of("Terminating");
    }
    let status = match &pod.status {
        Some(s) => s,
        None => return text_of("Unknown"),
    };
    if let Some(css) = &status.container_statuses {
        if let Some(v) = first_verdict_exec(css) {
            return v;
        }
    }
    if let Some(ics) = &status.init_container_statuses {
        if let Some(v) = init_verdict_exec(ics) {
            return v;
        }
    }
    text_or_exec(&status.phase, "Unknown")
}

// ── Other kinds ─────────────────────────────────────────────────────────────

/// `<ready>/<desired>` from two counts.
pub open spec fn ratio_text(ready: int, desired: int) -> Seq<char> {
    int_text(ready) + "/"@ + int_text(desired)
}

fn ratio_string(ready: i32, desired: i32) -> (r: String)
    ensures
        r@ == ratio_text(ready as int, desired as int),
{
    let mut out = String::new();
    push_int(&mut out, ready as i64);
    out.append("/");
    push_int(&mut out, desired as i64);
    out
}

pub open spec fn service_text(svc: Service) -> Seq<char> {
    text_or(svc.type_, "ClusterIP"@)
}

/// Status of a service: its type, `ClusterIP` by default.
pub fn service_status(svc: &Service) -> (r: String)
    ensures
        r@ == service_text(*svc),
{
    text_or_exec(&svc.type_, "ClusterIP")
}

pub open spec fn deploy_text(d: Deployment) -> Seq<char> {
    ratio_text(
        match d.ready_replicas { Some(n) => n as int, None => 0 },
        match d.replicas { Some(n) => n as int, None => 1 },
    )
}

/// Status of a deployment: ready over desired replicas; desired defaults to 1.
pub fn deploy_status(d: &Deployment) -> (r: String)
    ensures
        r@ == deploy_text(*d),
{
    let ready = match d.ready_replicas { Some(n) => n, None => 0 };
    let desired = match d.replicas { Some(n) => n, None => 1 };
    ratio_string(ready, desired)
}

pub open spec fn statefulset_text(sts: StatefulSet) -> Seq<char> {
    match sts.status {
        Some(st) => ratio_text(
            match st.ready_replicas { Some(n) => n as int, None => 0 },
            st.replicas as int,
        ),
        None => ratio_text(0, 0),
    }
}

/// Status of a stateful set: ready over total replicas, `0/0` without a status.
pub fn statefulset_status(sts: &StatefulSet) -> (r: String)
    ensures
        r@ == statefulset_text(*sts),
{
    match &sts.status {
        Some(st) => {
            let ready = match st.ready_replicas { Some(n) => n, None => 0 };
            ratio_string(ready, st.replicas)
        },
        None => ratio_string(0, 0),
    }
}

pub open spec fn daemonset_text(ds: DaemonSet) -> Seq<char> {
    match ds.status {
        Some(st) => ratio_text(st.number_ready as int, st.desired_number_scheduled as int),
        None => ratio_text(0, 0),
    }
}

/// Status of a daemon set: ready over desired scheduled pods, `0/0` without a status.
pub fn daemonset_status(ds: &DaemonSet) -> (r: String)
    ensures
        r@ == daemonset_text(*ds),
{
    match &ds.status {
        Some(st) => ratio_string(st.number_ready, st.desired_number_scheduled),
        None => ratio_string(0, 0),
    }
}

pub open spec fn secret_text(s: Secret) -> Seq<char> {
    text_or(s.type_, "Opaque"@)
}

/// Status of a secret: its declared type, `Opaque` by default.
pub fn secret_status(s: &Secret) -> (r: String)
    ensures
        r@ == secret_text(*s),
{
    text_or_exec(&s.type_, "Opaque")
}

pub open spec fn ingress_text(ing: Ingress) -> Seq<char> {
    match ing.load_balancer {
        Some(v) => if v@.len() > 0 {
            match v@[0].ip {
                Some(ip) => ip@,
                None => text_or(v@[0].hostname, "<pending>"@),
            }
        } else {
            "<pending>"@
        },
        None => "<pending>"@,
    }
}

/// Status of an ingress: the first load-balancer entry's IP, else its
/// hostname, else `<pending>`.
pub fn ingress_status(ing: &Ingress) -> (r: String)
    ensures
        r@ == ingress_text(*ing),
{
    match &ing.load_balancer {
        Some(v) => if v.len() > 0 {
            match &v[0].ip {
                Some(ip) => text_of(ip.as_str()),
                None => text_or_exec(&v[0].hostname, "<pending>"),
            }
        } else {
            text_of("<pending>")
        },
        None => text_of("<pending>"),
    }
}

/// Index of the first condition of type `Ready` from index `i` on.
pub open spec fn ready_condition(cs: Seq<crate::objects::NodeCondition>, i: int) -> Option<int>
    decreases cs.len() - i,
{
    if i < 0 || i >= cs.len() {
        None
    } else if cs[i].type_@ == "Ready"@ {
        Some(i)
    } else {
        ready_condition(cs, i + 1)
    }
}

pub open spec fn node_text(node: Node) -> Seq<char> {
    match node.conditions {
        Some(v) => match ready_condition(v@, 0) {
            Some(i) => if v@[i].status@ == "True"@ { "Ready"@ } else { "NotReady"@ },
            None => "Unknown"@,
        },
        None => "Unknown"@,
    }
}

/// Status of a node: `Ready` / `NotReady` from its first `Ready` condition,
/// `Unknown` without one.
pub fn node_status(node: &Node) -> (r: String)
    ensures
        r@ == node_text(*node),
{
    match &node.conditions {
        Some(v) => {
            let mut i: usize = 0;
            while i < v.len()
                invariant
                    i <= v.len(),
                    node.conditions == Some(*v),
                    ready_condition(v@, 0) == ready_condition(v@, i as int),
                decreases v.len() - i,
            {
                if same_text(v[i].type_.as_str(), "Ready") {
                    if same_text(v[i].status.as_str(), "True") {
                        return text_of("Ready");
                    } else {
                        return text_of("NotReady");
                    }
                }
                i = i + 1;
            }
            text_of("Unknown")
        },
        None => text_of("Unknown"),
    }
}

pub open spec fn namespace_text(ns: Namespace) -> Seq<char> {
    text_or(ns.phase, "Active"@)
}

/// Status of a namespace: its phase, `Active` by default.
pub fn namespace_status(ns: &Namespace) -> (r: String)
    ensures
        r@ == namespace_text(*ns),
{
    text_or_exec(&ns.phase, "Active")
}

pub open spec fn pv_text(pv: PersistentVolume) -> Seq<char> {
    text_or(pv.phase, "Unknown"@)
}

/// Status of a persistent volume: its phase, `Unknown` by default.
pub fn pv_status(pv: &PersistentVolume) -> (r: String)
    ensures
        r@ == pv_text(*pv),
{
    text_or_exec(&pv.phase, "Unknown")
}

pub open spec fn pvc_text(pvc: PersistentVolumeClaim) -> Seq<char> {
    text_or(pvc.phase, "Unknown"@)
}

/// Status of a persistent volume claim: its phase, `Unknown` by default.
pub fn pvc_status(pvc: &PersistentVolumeClaim) -> (r: String)
    ensures
        r@ == pvc_text(*pvc),
{
    text_or_exec(&pvc.phase, "Unknown")
}

pub open spec fn job_text(job: Job) -> Seq<char> {
    match job.status {
        None => "Unknown"@,
        Some(st) => if st.completion_time is Some {
            "Complete"@
        } else if st.failed is Some && st.failed->0 > 0 {
            "Failed("@ + int_text(st.failed->0 as int) + ")"@
        } else if st.active is Some && st.active->0 > 0 {
            "Active("@ + int_text(st.active->0 as int) + ")"@
        } else {
            "Unknown"@
        },
    }
}

fn counted(label: &str, n: i32) -> (r: String)
    ensures
        r@ == label@ + int_text(n as int) + ")"@,
{
    let mut out = text_of(label);
    push_int(&mut out, n as i64);
    out.append(")");
    out
}

/// Status of a job: `Complete` once finished, else `Failed(n)` for failures,
/// else `Active(n)` while pods run, else `Unknown`.
pub fn job_status(job: &Job) -> (r: String)
    ensures
        r@ == job_text(*job),
{
    match &job.status {
        None => text_of("Unknown"),
        Some(st) => {
            if st.completion_time.is_some() {
                return text_of("Complete");
            }
            if let Some(failed) = st.failed {
                if failed > 0 {
                    return counted("Failed(", failed);
                }
            }
            if let Some(active) = st.active {
                if active > 0 {
                    return counted("Active(", active);
                }
            }
            text_of("Unknown")
        },
    }
}

pub open spec fn cronjob_text(cj: CronJob) -> Seq<char> {
    if cj.active_jobs > 0 {
        "Active("@ + nat_text(cj.active_jobs as nat) + ")"@
    } else {
        "Scheduled"@
    }
}

/// Status of a cron job: `Active(n)` while jobs run, else `Scheduled`.
pub fn cronjob_status(cj: &CronJob) -> (r: String)
    ensures
        r@ == cronjob_text(*cj),
{
    if cj.active_jobs > 0 {
        let mut out = text_of("Active(");
        push_nat(&mut out, cj.active_jobs as u64);
        out.append(")");
        out
    } else {
        text_of("Scheduled")
    }
}

/// The status of any object, by its kind. Config maps carry no status of
/// their own and show their kind.
pub open spec fn status_text(o: &RawObject) -> Seq<char> {
    match o {
        RawObject::Pod(x) => pod_text(*x),
        RawObject::Service(x) => service_text(*x),
        RawObject::Deployment(x) => deploy_text(*x),
        RawObject::StatefulSet(x) => statefulset_text(*x),
        RawObject::DaemonSet(x) => daemonset_text(*x),
        RawObject::ConfigMap(_) => "ConfigMap"@,
        RawObject::Secret(x) => secret_text(*x),
        RawObject::Ingress(x) => ingress_text(*x),
        RawObject::Node(x) => node_text(*x),
        RawObject::Namespace(x) => namespace_text(*x),
        RawObject::PersistentVolume(x) => pv_text(*x),
        RawObject::PersistentVolumeClaim(x) => pvc_text(*x),
        RawObject::Job(x) => job_text(*x),
        RawObject::CronJob(x) => cronjob_text(*x),
    }
}

/// Status of any object, dispatched on its kind.
pub fn object_status(o: &RawObject) -> (r: String)
    ensures
        r@ == status_text(o),
{
    match o {
        RawObject::Pod(x) => pod_status(x),
        RawObject::Service(x) => service_status(x),
        RawObject::Deployment(x) => deploy_status(x),
        RawObject::StatefulSet(x) => statefulset_status(x),
        RawObject::DaemonSet(x) => daemonset_status(x),
        RawObject::ConfigMap(_) => text_of("ConfigMap"),
        RawObject::Secret(x) => secret_status(x),
        RawObject::Ingress(x) => ingress_status(x),
        RawObject::Node(x) => node_status(x),
        RawObject::Namespace(x) => namespace_status(x),
        RawObject::PersistentVolume(x) => pv_status(x),
        RawObject::PersistentVolumeClaim(x) => pvc_status(x),
        RawObject::Job(x) => job_status(x),
        RawObject::CronJob(x) => cronjob_status(x),
    }
}

// ── Age ─────────────────────────────────────────────────────────────────────

/// Nanoseconds from `from` to `to`.
pub open spec fn nanos_between(from: Time, to: Time) -> int {
    (to.seconds - from.seconds) * 1_000_000_000 + (to.nanoseconds - from.nanoseconds)
}

/// Whole minutes from `from` to `to`, rounded to the nearest minute, ties away from zero.
pub open spec fn rounded_minutes(from: Time, to: Time) -> int {
    let d = nanos_between(from, to);
    let mag = if d >= 0 { d } else { -d };
    let q = mag / 60_000_000_000 + if 2 * (mag % 60_000_000_000) >= 60_000_000_000 { 1int } else { 0int };
    if d >= 0 { q } else { -q }
}

/// Instants well inside the range that `jiff::Timestamp::new` accepts (its
/// seconds bound narrowed by one on each side), with a nonnegative
/// sub-second part.
pub open spec fn in_range(t: Time) -> bool {
    -377_705_023_200 <= t.seconds <= 253_402_207_199 && 0 <= t.nanoseconds <= 999_999_999
}

/// Relies on `jiff::Timestamp::since`, with minutes as both the largest and
/// the smallest unit and half-expand rounding: the span from `from` to `to`
/// in whole minutes, rounded to the nearest, ties away from zero. The
/// instants are first built with `jiff::Timestamp::new`, which fails only
/// outside its range or for a sub-second part beyond one second; the span in
/// minutes between two instants of that range always fits a `Span`, so the
/// call succeeds for any two instants `in_range`.
#[verifier::external_body]
fn minutes_between(from: Time, to: Time) -> (r: Option<i64>)
    ensures
        in_range(from) && in_range(to) ==> r is Some,
        r matches Some(m) ==> m as int == rounded_minutes(from, to),
{
    let a = Timestamp::new(from.seconds, from.nanoseconds).ok()?;
    let b = Timestamp::new(to.seconds, to.nanoseconds).ok()?;
    let diff = TimestampDifference::new(a)
        .smallest(Unit::Minute)
        .largest(Unit::Minute)
        .mode(RoundMode::HalfExpand);
    b.since(diff).ok().map(|span| span.get_minutes())
}

/// The age shown for an elapsed time of `m` whole minutes: the largest
/// nonzero unit among days, hours and minutes (`3d`, `12h`, `5m`), with
/// 24-hour days; `?` when the time is unknown.
pub open spec fn age_text(m: Option<int>) -> Seq<char> {
    match m {
        None => "?"@,
        Some(m) => if m >= 1440 {
            nat_text((m / 1440) as nat) + "d"@
        } else if m >= 60 {
            nat_text((m / 60) as nat) + "h"@
        } else if m >= 0 {
            nat_text(m as nat) + "m"@
        } else {
            int_text(-((-m) % 60)) + "m"@
        },
    }
}

/// Renders an elapsed time in whole minutes as an age.
pub fn format_age(minutes: Option<i64>) -> (r: String)
    ensures
        r@ == age_text(match minutes {
            Some(m) => Some(m as int),
            None => None,
        }),
{
    match minutes {
        None => text_of("?"),
        Some(m) => {
            let mut out = String::new();
            if m >= 1440 {
                push_nat(&mut out, (m / 1440) as u64);
                out.append("d");
            } else if m >= 60 {
                push_nat(&mut out, (m / 60) as u64);
                out.append("h");
            } else if m >= 0 {
                push_nat(&mut out, m as u64);
                out.append("m");
            } else {
                let rest: i64 = -(((-(m as i128)) % 60) as i64);
                push_int(&mut out, rest);
                out.append("m");
            }
            out
        },
    }
}

/// The age shown for an object created at `created`, as seen at `now`:
/// `?` without a creation time; the elapsed minutes formatted when both
/// instants are in range; outside that range either of the two.
pub open spec fn age_matches(age: Seq<char>, created: Option<Time>, now: Time) -> bool {
    match created {
        None => age == "?"@,
        Some(t) => if in_range(t) && in_range(now) {
            age == age_text(Some(rounded_minutes(t, now)))
        } else {
            age == "?"@ || age == age_text(Some(rounded_minutes(t, now)))
        },
    }
}

/// Age of an object from its creation time until `now`; `?` without one.
pub fn resource_age(meta: &ObjectMeta, now: Time) -> (r: String)
    ensures
        age_matches(r@, meta.creation_timestamp, now),
{
    match meta.creation_timestamp {
        None => text_of("?"),
        Some(t) => format_age(minutes_between(t, now)),
    }
}

// ── Items ───────────────────────────────────────────────────────────────────

/// What an item built from `o` holds: the object's kind,
/// namespace (empty when it has none), name and status, or the deletion
/// marker as status for a deleted object, the given cluster context, and the
/// age of the object at `now`.
pub open spec fn item_matches(v: ItemView, o: &RawObject, deleted: bool, context: Seq<char>, now: Time) -> bool {
    &&& v.kind == crate::objects::object_kind(o)
    &&& v.namespace == text_or(crate::objects::object_meta(o).namespace, Seq::empty())
    &&& v.name == crate::objects::object_meta(o).name@
    &&& v.status == (if deleted { deleted_marker() } else { status_text(o) })
    &&& v.context == context
    &&& age_matches(v.age, crate::objects::object_meta(o).creation_timestamp, now)
}

/// Builds the item for an object seen at `now`; a deleted object gets the
/// deletion marker as status.
pub fn make_item(o: &RawObject, deleted: bool, context: &str, now: Time) -> (r: K8sItem)
    ensures
        item_matches(r@, o, deleted, context@, now),
{
    let meta = o.metadata();
    let namespace = text_or_exec(&meta.namespace, "");
    proof {
        reveal_strlit("");
        assert(""@ =~= Seq::<char>::empty());
    }
    let status = if deleted { text_of("[DELETED]") } else { object_status(o) };
    let age = resource_age(meta, now);
    K8sItem::from_parts(
        o.kind(),
        namespace,
        text_of(meta.name.as_str()),
        status,
        age,
        text_of(context),
    )
}

/// The kinds watched when no filter is given.
pub open spec fn default_kinds() -> Seq<ResourceKind> {
    seq![
        ResourceKind::Pod,
        ResourceKind::Deployment,
        ResourceKind::StatefulSet,
        ResourceKind::DaemonSet,
        ResourceKind::Service,
        ResourceKind::Ingress,
        ResourceKind::Job,
        ResourceKind::CronJob,
        ResourceKind::ConfigMap,
        ResourceKind::Secret,
        ResourceKind::PersistentVolume,
        ResourceKind::PersistentVolumeClaim,
        ResourceKind::Namespace,
        ResourceKind::Node,
    ]
}

/// Every resource kind, in the order they are watched by default.
pub fn all_kinds() -> (r: Vec<ResourceKind>)
    ensures
        r@ == default_kinds(),
{
    let r = vec![
        ResourceKind::Pod,
        ResourceKind::Deployment,
        ResourceKind::StatefulSet,
        ResourceKind::DaemonSet,
        ResourceKind::Service,
        ResourceKind::Ingress,
        ResourceKind::Job,
        ResourceKind::CronJob,
        ResourceKind::ConfigMap,
        ResourceKind::Secret,
        ResourceKind::PersistentVolume,
        ResourceKind::PersistentVolumeClaim,
        ResourceKind::Namespace,
        ResourceKind::Node,
    ];
    assert(r@ =~= default_kinds());
    r
}

} // verus!
