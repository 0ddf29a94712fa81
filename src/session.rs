//! Decisions of an interactive session: which action a key selects (and
//! whether read-only mode refuses it), and the selector's header and key
//! bindings.
use vstd::prelude::*;
use vstd::string::*;
use crate::items::{kind_name, ItemView, K8sItem, ResourceKind};
use crate::watch::views;
use crate::text::text_of;
use crate::actions::texts;

verus! {

/// The actions offered on selected items.
#[derive(Debug, Clone, Copy, PartialEq, Eq, Structural)]
pub enum Action {
    Describe,
    Logs,
    Exec,
    Delete,
    PortForward,
    RolloutRestart,
    Yaml,
}

/// What to do once the selector returns.
#[derive(Debug, Clone, Copy, PartialEq, Eq, Structural)]
pub enum Dispatch {
    /// Run the action on the selection.
    Run(Action),
    /// The action writes or executes, and read-only mode refuses it.
    Refused(Action),
}

/// The action that ctrl plus `key` selects; any other way of ending the
/// selection describes.
pub open spec fn action_of(key: Option<char>) -> Action {
    match key {
        Some('l') => Action::Logs,
        Some('e') => Action::Exec,
        Some('d') => Action::Delete,
        Some('f') => Action::PortForward,
        Some('r') => Action::RolloutRestart,
        Some('y') => Action::Yaml,
        _ => Action::Describe,
    }
}

/// Actions that change the cluster or run code in it.
pub open spec fn writes(a: Action) -> bool {
    a == Action::Exec || a == Action::Delete || a == Action::PortForward || a == Action::RolloutRestart
}

/// Chooses what to do for the key that ended the selection (`Some(c)` for
/// ctrl plus `c`), refusing writing actions in read-only mode.
pub fn choose_action(ctrl_key: Option<char>, read_only: bool) -> (r: Dispatch)
    ensures
        r == (if read_only && writes(action_of(ctrl_key)) {
            Dispatch::Refused(action_of(ctrl_key))
        } else {
            Dispatch::Run(action_of(ctrl_key))
        }),
{
    let action = match ctrl_key {
        Some('l') => Action::Logs,
        Some('e') => Action::Exec,
        Some('d') => Action::Delete,
        Some('f') => Action::PortForward,
        Some('r') => Action::RolloutRestart,
        Some('y') => Action::Yaml,
        _ => Action::Describe,
    };
    let writing = match action {
        Action::Exec | Action::Delete | Action::PortForward | Action::RolloutRestart => true,
        _ => false,
    };
    if read_only && writing {
        Dispatch::Refused(action)
    } else {
        Dispatch::Run(action)
    }
}

/// The label of the watched kinds: the kind's identifier when there is one, else `all`.
pub open spec fn kind_label_text(kinds: Seq<ResourceKind>) -> Seq<char> {
    if kinds.len() == 1 { kind_name(kinds[0]) } else { "all"@ }
}

/// Label of the watched kinds for the selector's header.
pub fn kind_label(kinds: &Vec<ResourceKind>) -> (r: String)
    ensures
        r@ == kind_label_text(kinds@),
{
    if kinds.len() == 1 {
        text_of(kinds[0].as_str())
    } else {
        text_of("all")
    }
}

/// The selector's header: context, namespace, kinds and mode, then the key help.
pub open spec fn header_text(
    ctx_label: Seq<char>,
    kind_label: Seq<char>,
    show_ctx_switch: bool,
    read_only: bool,
    namespace: Option<Seq<char>>,
) -> Seq<char> {
    "KubeRift  ctx:"@ + ctx_label
        + (match namespace { Some(n) => "  ns:"@ + n, None => ""@ })
        + "  res:"@ + kind_label
        + (if read_only { "  [READ-ONLY]"@ } else { ""@ })
        + "\n<tab> select  <enter> describe  ctrl-l logs  ctrl-e exec  ctrl-d delete  ctrl-f forward  ctrl-r restart  ctrl-y yaml  ctrl-p cycle-preview"@
        + (if show_ctx_switch { "  ctrl-x switch-ctx"@ } else { ""@ })
}

/// Builds the selector's header.
pub fn selector_header(
    ctx_label: &str,
    kind_label: &str,
    show_ctx_switch: bool,
    read_only: bool,
    namespace: Option<&str>,
) -> (r: String)
    ensures
        r@ == header_text(ctx_label@, kind_label@, show_ctx_switch, read_only, match namespace {
            Some(n) => Some(n@),
            None => None,
        }),
{
    proof {
        reveal_strlit("");
    }
    let mut h = text_of("KubeRift  ctx:");
    h.append(ctx_label);
    if let Some(n) = namespace {
        h.append("  ns:");
        h.append(n);
    }
    h.append("  res:");
    h.append(kind_label);
    if read_only {
        h.append("  [READ-ONLY]");
    }
    h.append("\n<tab> select  <enter> describe  ctrl-l logs  ctrl-e exec  ctrl-d delete  ctrl-f forward  ctrl-r restart  ctrl-y yaml  ctrl-p cycle-preview");
    if show_ctx_switch {
        h.append("  ctrl-x switch-ctx");
    }
    let ghost ns = match namespace { Some(n) => Some(n@), None => None::<Seq<char>> };
    assert(h@ =~= header_text(ctx_label@, kind_label@, show_ctx_switch, read_only, ns));
    h
}

/// The selector's key bindings: each action key accepts the selection,
/// ctrl-p runs the preview toggle script at `toggle_path` and refreshes the
/// preview, and ctrl-x (context switch) accepts when offered.
pub open spec fn bindings_text(toggle_path: Seq<char>, show_ctx_switch: bool) -> Seq<Seq<char>> {
    let base = seq![
        "ctrl-l:accept"@,
        "ctrl-e:accept"@,
        "ctrl-d:accept"@,
        "ctrl-f:accept"@,
        "ctrl-r:accept"@,
        "ctrl-y:accept"@,
        "ctrl-p:execute("@ + toggle_path + ")+refresh-preview"@
    ];
    if show_ctx_switch { base.push("ctrl-x:accept"@) } else { base }
}

/// Builds the selector's key bindings.
pub fn key_bindings(toggle_path: &str, show_ctx_switch: bool) -> (r: Vec<String>)
    ensures
        texts(r@) == bindings_text(toggle_path@, show_ctx_switch),
{
    let mut binds: Vec<String> = Vec::new();
    binds.push(text_of("ctrl-l:accept"));
    binds.push(text_of("ctrl-e:accept"));
    binds.push(text_of("ctrl-d:accept"));
    binds.push(text_of("ctrl-f:accept"));
    binds.push(text_of("ctrl-r:accept"));
    binds.push(text_of("ctrl-y:accept"));
    let mut toggle = text_of("ctrl-p:execute(");
    toggle.append(toggle_path);
    toggle.append(")+refresh-preview");
    binds.push(toggle);
    if show_ctx_switch {
        binds.push(text_of("ctrl-x:accept"));
    }
    assert(texts(binds@) =~= bindings_text(toggle_path@, show_ctx_switch));
    binds
}

/// Sample items shown when no cluster can be reached.
pub open spec fn demo_rows() -> Seq<ItemView> {
    seq![
        ItemView {
            kind: ResourceKind::Pod,
            namespace: "production"@,
            name: "api-server-7d9f8b6c5-xk2lp"@,
            status: "CrashLoopBackOff"@,
            age: "1h"@,
            context: ""@,
        },
        ItemView {
            kind: ResourceKind::Pod,
            namespace: "staging"@,
            name: "frontend-5c7d8e9f0-ab1cd"@,
            status: "Pending"@,
            age: "5m"@,
            context: ""@,
        },
        ItemView {
            kind: ResourceKind::Pod,
            namespace: "production"@,
            name: "worker-6f8b9c4d7-mn3qr"@,
            status: "Running"@,
            age: "2d"@,
            context: ""@,
        },
        ItemView {
            kind: ResourceKind::Deployment,
            namespace: "production"@,
            name: "api-server"@,
            status: "2/3"@,
            age: "2d"@,
            context: ""@,
        },
        ItemView {
            kind: ResourceKind::Deployment,
            namespace: "staging"@,
            name: "frontend"@,
            status: "0/1"@,
            age: "5m"@,
            context: ""@,
        },
        ItemView {
            kind: ResourceKind::Service,
            namespace: "production"@,
            name: "api-service"@,
            status: "ClusterIP"@,
            age: "2d"@,
            context: ""@,
        },
        ItemView {
            kind: ResourceKind::ConfigMap,
            namespace: "production"@,
            name: "app-config"@,
            status: "ConfigMap"@,
            age: "2d"@,
            context: ""@,
        },
        ItemView {
            kind: ResourceKind::Secret,
            namespace: "production"@,
            name: "api-tls"@,
            status: "kubernetes.io/tls"@,
            age: "30d"@,
            context: ""@,
        },
        ItemView {
            kind: ResourceKind::Node,
            namespace: ""@,
            name: "kind-control-plane"@,
            status: "Ready"@,
            age: "7d"@,
            context: ""@,
        },
        ItemView {
            kind: ResourceKind::Namespace,
            namespace: ""@,
            name: "production"@,
            status: "Active"@,
            age: "30d"@,
            context: ""@,
        },
        ItemView {
            kind: ResourceKind::Namespace,
            namespace: ""@,
            name: "staging"@,
            status: "Active"@,
            age: "10d"@,
            context: ""@,
        },
    ]
}

/// The sample items, for running without a cluster.
pub fn demo_items() -> (r: Vec<K8sItem>)
    ensures
        views(r@) == demo_rows(),
{
    let mut items: Vec<K8sItem> = Vec::new();
    items.push(K8sItem::new(ResourceKind::Pod, "production", "api-server-7d9f8b6c5-xk2lp", "CrashLoopBackOff", "1h", ""));
    items.push(K8sItem::new(ResourceKind::Pod, "staging", "frontend-5c7d8e9f0-ab1cd", "Pending", "5m", ""));
    items.push(K8sItem::new(ResourceKind::Pod, "production", "worker-6f8b9c4d7-mn3qr", "Running", "2d", ""));
    items.push(K8sItem::new(ResourceKind::Deployment, "production", "api-server", "2/3", "2d", ""));
    items.push(K8sItem::new(ResourceKind::Deployment, "staging", "frontend", "0/1", "5m", ""));
    items.push(K8sItem::new(ResourceKind::Service, "production", "api-service", "ClusterIP", "2d", ""));
    items.push(K8sItem::new(ResourceKind::ConfigMap, "production", "app-config", "ConfigMap", "2d", ""));
    items.push(K8sItem::new(ResourceKind::Secret, "production", "api-tls", "kubernetes.io/tls", "30d", ""));
    items.push(K8sItem::new(ResourceKind::Node, "", "kind-control-plane", "Ready", "7d", ""));
    items.push(K8sItem::new(ResourceKind::Namespace, "", "production", "Active", "30d", ""));
    items.push(K8sItem::new(ResourceKind::Namespace, "", "staging", "Active", "10d", ""));
    assert(views(items@) =~= demo_rows());
    items
}

} // verus!
