//! Command-line options, and the resource filter that the first argument names.
use vstd::prelude::*;
use crate::items::ResourceKind;
use crate::text::same_text;

verus! {

/// Declares `clap_complete::Shell`, the shell named for completions; the
/// options only carry it, nothing here reads it.
#[verifier::external_type_specification]
#[verifier::external_body]
pub struct ExShell(clap_complete::Shell);

/// The options of one run.
#[derive(Debug)]
pub struct Args {
    /// Resource type to show (an alias such as `pods`, `svc`, `deploy`); all types when absent.
    pub resource: Option<String>,
    /// Watch every configured cluster context at once.
    pub all_contexts: bool,
    /// The cluster context to use instead of the current one.
    pub context: Option<String>,
    /// Restrict namespaced kinds to this namespace.
    pub namespace: Option<String>,
    /// Offer only read actions (describe, logs, yaml).
    pub read_only: bool,
    /// Path of the cluster configuration file.
    pub kubeconfig: Option<String>,
    /// Print shell completions for this shell and exit.
    pub completions: Option<clap_complete::Shell>,
    /// Print the manual page and exit.
    pub mangen: bool,
}

/// What `str::to_lowercase` makes of a string.
pub uninterp spec fn lower_of(s: Seq<char>) -> Seq<char>;

/// Relies on `str::to_lowercase`: the result depends on the characters alone.
#[verifier::external_body]
fn lowercase(s: &str) -> (r: String)
    ensures
        r@ == lower_of(s@),
{
    s.to_lowercase()
}

/// The kind that an alias (already in lower case) names, if any.
pub open spec fn alias_kind(s: Seq<char>) -> Option<ResourceKind> {
    if s == "pod"@ || s == "pods"@ || s == "po"@ {
        Some(ResourceKind::Pod)
    } else if s == "svc"@ || s == "service"@ || s == "services"@ {
        Some(ResourceKind::Service)
    } else if s == "deploy"@ || s == "deployment"@ || s == "deployments"@ {
        Some(ResourceKind::Deployment)
    } else if s == "sts"@ || s == "statefulset"@ || s == "statefulsets"@ {
        Some(ResourceKind::StatefulSet)
    } else if s == "ds"@ || s == "daemonset"@ || s == "daemonsets"@ {
        Some(ResourceKind::DaemonSet)
    } else if s == "cm"@ || s == "configmap"@ || s == "configmaps"@ {
        Some(ResourceKind::ConfigMap)
    } else if s == "secret"@ || s == "secrets"@ {
        Some(ResourceKind::Secret)
    } else if s == "ing"@ || s == "ingress"@ || s == "ingresses"@ {
        Some(ResourceKind::Ingress)
    } else if s == "node"@ || s == "nodes"@ || s == "no"@ {
        Some(ResourceKind::Node)
    } else if s == "ns"@ || s == "namespace"@ || s == "namespaces"@ {
        Some(ResourceKind::Namespace)
    } else if s == "pv"@ || s == "persistentvolume"@ || s == "persistentvolumes"@ {
        Some(ResourceKind::PersistentVolume)
    } else if s == "pvc"@ || s == "persistentvolumeclaim"@ || s == "persistentvolumeclaims"@ {
        Some(ResourceKind::PersistentVolumeClaim)
    } else if s == "job"@ || s == "jobs"@ {
        Some(ResourceKind::Job)
    } else if s == "cj"@ || s == "cronjob"@ || s == "cronjobs"@ {
        Some(ResourceKind::CronJob)
    } else {
        None
    }
}

fn any_of(s: &str, a: &str, b: &str, c: &str) -> (r: bool)
    ensures
        r == (s@ == a@ || s@ == b@ || s@ == c@),
{
    same_text(s, a) || same_text(s, b) || same_text(s, c)
}

/// The kinds that a lower-case alias selects: one kind, or `None` for an
/// unknown alias (which means every kind is shown).
pub fn kinds_for_alias(s: &str) -> (r: Option<Vec<ResourceKind>>)
    ensures
        match r {
            Some(v) => alias_kind(s@) matches Some(k) && v@ == seq![k],
            None => alias_kind(s@) is None,
        },
{
    let kind = if any_of(s, "pod", "pods", "po") {
        ResourceKind::Pod
    } else if any_of(s, "svc", "service", "services") {
        ResourceKind::Service
    } else if any_of(s, "deploy", "deployment", "deployments") {
        ResourceKind::Deployment
    } else if any_of(s, "sts", "statefulset", "statefulsets") {
        ResourceKind::StatefulSet
    } else if any_of(s, "ds", "daemonset", "daemonsets") {
        ResourceKind::DaemonSet
    } else if any_of(s, "cm", "configmap", "configmaps") {
        ResourceKind::ConfigMap
    } else if same_text(s, "secret") || same_text(s, "secrets") {
        ResourceKind::Secret
    } else if any_of(s, "ing", "ingress", "ingresses") {
        ResourceKind::Ingress
    } else if any_of(s, "node", "nodes", "no") {
        ResourceKind::Node
    } else if any_of(s, "ns", "namespace", "namespaces") {
        ResourceKind::Namespace
    } else if any_of(s, "pv", "persistentvolume", "persistentvolumes") {
        ResourceKind::PersistentVolume
    } else if any_of(s, "pvc", "persistentvolumeclaim", "persistentvolumeclaims") {
        ResourceKind::PersistentVolumeClaim
    } else if same_text(s, "job") || same_text(s, "jobs") {
        ResourceKind::Job
    } else if any_of(s, "cj", "cronjob", "cronjobs") {
        ResourceKind::CronJob
    } else {
        return None;
    };
    let v = vec![kind];
    assert(v@ =~= seq![kind]);
    Some(v)
}

impl Args {
    /// The kinds that the resource argument selects, matched without regard
    /// to case; `None` when it is absent or unknown (show every kind).
    pub fn resource_filter(&self) -> (r: Option<Vec<ResourceKind>>)
        ensures
            match self.resource {
                None => r is None,
                Some(res) => match r {
                    Some(v) => alias_kind(lower_of(res@)) matches Some(k) && v@ == seq![k],
                    None => alias_kind(lower_of(res@)) is None,
                },
            },
    {
        match &self.resource {
            None => None,
            Some(res) => {
                let lowered = lowercase(res.as_str());
                kinds_for_alias(lowered.as_str())
            },
        }
    }
}

} // verus!
