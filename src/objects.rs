//! The raw objects that watch streams deliver, holding as plain values the
//! fields that status extraction and item construction read.
use vstd::prelude::*;
use crate::items::ResourceKind;

verus! {

/// A point in time: seconds and nanoseconds since the Unix epoch.
#[derive(Debug, Clone, Copy, PartialEq, Eq, Default)]
pub struct Time {
    pub seconds: i64,
    pub nanoseconds: i32,
}

/// Identity and lifecycle metadata common to every object.
#[derive(Debug, Default)]
pub struct ObjectMeta {
    pub name: String,
    pub namespace: Option<String>,
    pub creation_timestamp: Option<Time>,
    pub deletion_timestamp: Option<Time>,
}

#[derive(Debug, Default)]
pub struct ContainerStateWaiting {
    pub reason: Option<String>,
}

#[derive(Debug, Default)]
pub struct ContainerStateTerminated {
    pub exit_code: i32,
    pub reason: Option<String>,
}

#[derive(Debug, Default)]
pub struct ContainerState {
    pub waiting: Option<ContainerStateWaiting>,
    pub terminated: Option<ContainerStateTerminated>,
}

#[derive(Debug, Default)]
pub struct ContainerStatus {
    pub state: Option<ContainerState>,
}

#[derive(Debug, Default)]
pub struct PodStatus {
    pub phase: Option<String>,
    pub container_statuses: Option<Vec<ContainerStatus>>,
    pub init_container_statuses: Option<Vec<ContainerStatus>>,
}

#[derive(Debug, Default)]
pub struct Pod {
    pub metadata: ObjectMeta,
    pub status: Option<PodStatus>,
}

#[derive(Debug, Default)]
pub struct Service {
    pub metadata: ObjectMeta,
    /// The declared service type, when the spec gives one.
    pub type_: Option<String>,
}

#[derive(Debug, Default)]
pub struct Deployment {
    pub metadata: ObjectMeta,
    /// Desired replicas from the spec.
    pub replicas: Option<i32>,
    /// Ready replicas from the status.
    pub ready_replicas: Option<i32>,
}

#[derive(Debug, Default)]
pub struct StatefulSetStatus {
    pub replicas: i32,
    pub ready_replicas: Option<i32>,
}

#[derive(Debug, Default)]
pub struct StatefulSet {
    pub metadata: ObjectMeta,
    pub status: Option<StatefulSetStatus>,
}

#[derive(Debug, Default)]
pub struct DaemonSetStatus {
    pub number_ready: i32,
    pub desired_number_scheduled: i32,
}

#[derive(Debug, Default)]
pub struct DaemonSet {
    pub metadata: ObjectMeta,
    pub status: Option<DaemonSetStatus>,
}

#[derive(Debug, Default)]
pub struct ConfigMap {
    pub metadata: ObjectMeta,
}

#[derive(Debug, Default)]
pub struct Secret {
    pub metadata: ObjectMeta,
    pub type_: Option<String>,
}

#[derive(Debug, Default)]
pub struct LoadBalancerIngress {
    pub ip: Option<String>,
    pub hostname: Option<String>,
}

#[derive(Debug, Default)]
pub struct Ingress {
    pub metadata: ObjectMeta,
    /// The load-balancer ingress entries from the status, when present.
    pub load_balancer: Option<Vec<LoadBalancerIngress>>,
}

#[derive(Debug, Default)]
pub struct NodeCondition {
    pub type_: String,
    pub status: String,
}

#[derive(Debug, Default)]
pub struct Node {
    pub metadata: ObjectMeta,
    pub conditions: Option<Vec<NodeCondition>>,
}

#[derive(Debug, Default)]
pub struct Namespace {
    pub metadata: ObjectMeta,
    pub phase: Option<String>,
}

#[derive(Debug, Default)]
pub struct PersistentVolume {
    pub metadata: ObjectMeta,
    pub phase: Option<String>,
}

#[derive(Debug, Default)]
pub struct PersistentVolumeClaim {
    pub metadata: ObjectMeta,
    pub phase: Option<String>,
}

#[derive(Debug, Default)]
pub struct JobStatus {
    pub completion_time: Option<Time>,
    pub failed: Option<i32>,
    pub active: Option<i32>,
}

#[derive(Debug, Default)]
pub struct Job {
    pub metadata: ObjectMeta,
    pub status: Option<JobStatus>,
}

#[derive(Debug, Default)]
pub struct CronJob {
    pub metadata: ObjectMeta,
    /// How many jobs the status lists as currently active.
    pub active_jobs: usize,
}

/// An object of any watched kind; the variant is its kind.
#[derive(Debug)]
pub enum RawObject {
    Pod(Pod),
    Service(Service),
    Deployment(Deployment),
    StatefulSet(StatefulSet),
    DaemonSet(DaemonSet),
    ConfigMap(ConfigMap),
    Secret(Secret),
    Ingress(Ingress),
    Node(Node),
    Namespace(Namespace),
    PersistentVolume(PersistentVolume),
    PersistentVolumeClaim(PersistentVolumeClaim),
    Job(Job),
    CronJob(CronJob),
}

pub open spec fn object_kind(o: &RawObject) -> ResourceKind {
    match o {
        RawObject::Pod(_) => ResourceKind::Pod,
        RawObject::Service(_) => ResourceKind::Service,
        RawObject::Deployment(_) => ResourceKind::Deployment,
        RawObject::StatefulSet(_) => ResourceKind::StatefulSet,
        RawObject::DaemonSet(_) => ResourceKind::DaemonSet,
        RawObject::ConfigMap(_) => ResourceKind::ConfigMap,
        RawObject::Secret(_) => ResourceKind::Secret,
        RawObject::Ingress(_) => ResourceKind::Ingress,
        RawObject::Node(_) => ResourceKind::Node,
        RawObject::Namespace(_) => ResourceKind::Namespace,
        RawObject::PersistentVolume(_) => ResourceKind::PersistentVolume,
        RawObject::PersistentVolumeClaim(_) => ResourceKind::PersistentVolumeClaim,
        RawObject::Job(_) => ResourceKind::Job,
        RawObject::CronJob(_) => ResourceKind::CronJob,
    }
}

pub open spec fn object_meta(o: &RawObject) -> &ObjectMeta {
    match o {
        RawObject::Pod(x) => &x.metadata,
        RawObject::Service(x) => &x.metadata,
        RawObject::Deployment(x) => &x.metadata,
        RawObject::StatefulSet(x) => &x.metadata,
        RawObject::DaemonSet(x) => &x.metadata,
        RawObject::ConfigMap(x) => &x.metadata,
        RawObject::Secret(x) => &x.metadata,
        RawObject::Ingress(x) => &x.metadata,
        RawObject::Node(x) => &x.metadata,
        RawObject::Namespace(x) => &x.metadata,
        RawObject::PersistentVolume(x) => &x.metadata,
        RawObject::PersistentVolumeClaim(x) => &x.metadata,
        RawObject::Job(x) => &x.metadata,
        RawObject::CronJob(x) => &x.metadata,
    }
}

impl RawObject {
    /// The kind of this object.
    pub fn kind(&self) -> (r: ResourceKind)
        ensures
            r == object_kind(self),
    {
        match self {
            RawObject::Pod(_) => ResourceKind::Pod,
            RawObject::Service(_) => ResourceKind::Service,
            RawObject::Deployment(_) => ResourceKind::Deployment,
            RawObject::StatefulSet(_) => ResourceKind::StatefulSet,
            RawObject::DaemonSet(_) => ResourceKind::DaemonSet,
            RawObject::ConfigMap(_) => ResourceKind::ConfigMap,
            RawObject::Secret(_) => ResourceKind::Secret,
            RawObject::Ingress(_) => ResourceKind::Ingress,
            RawObject::Node(_) => ResourceKind::Node,
            RawObject::Namespace(_) => ResourceKind::Namespace,
            RawObject::PersistentVolume(_) => ResourceKind::PersistentVolume,
            RawObject::PersistentVolumeClaim(_) => ResourceKind::PersistentVolumeClaim,
            RawObject::Job(_) => ResourceKind::Job,
            RawObject::CronJob(_) => ResourceKind::CronJob,
        }
    }

    /// The metadata of this object.
    pub fn metadata(&self) -> (r: &ObjectMeta)
        ensures
            r == object_meta(self),
    {
        match self {
            RawObject::Pod(x) => &x.metadata,
            RawObject::Service(x) => &x.metadata,
            RawObject::Deployment(x) => &x.metadata,
            RawObject::StatefulSet(x) => &x.metadata,
            RawObject::DaemonSet(x) => &x.metadata,
            RawObject::ConfigMap(x) => &x.metadata,
            RawObject::Secret(x) => &x.metadata,
            RawObject::Ingress(x) => &x.metadata,
            RawObject::Node(x) => &x.metadata,
            RawObject::Namespace(x) => &x.metadata,
            RawObject::PersistentVolume(x) => &x.metadata,
            RawObject::PersistentVolumeClaim(x) => &x.metadata,
            RawObject::Job(x) => &x.metadata,
            RawObject::CronJob(x) => &x.metadata,
        }
    }
}

} // verus!
