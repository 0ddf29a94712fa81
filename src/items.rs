//! The item model: resource kinds, health tiers of status strings, and the
//! immutable snapshot of one observed object.
use vstd::prelude::*;
use vstd::string::*;
use vstd::utf8::{encode_utf8, is_char_boundary};
use crate::text::{chars_of, has_prefix, pad_right, padded, same_text, text_of};

verus! {

/// Display colors used by the selector.
#[derive(Debug, Clone, Copy, PartialEq, Eq, Structural)]
pub enum Color {
    Red,
    Yellow,
    Green,
    DarkGray,
    Blue,
    Magenta,
    Cyan,
    White,
    LightMagenta,
    LightBlue,
    LightGreen,
    LightRed,
    LightCyan,
}

/// Health tier of a status string; the single source of both color and sort order.
#[derive(Debug, Clone, Copy, PartialEq, Eq, Structural)]
pub enum StatusHealth {
    /// Needs immediate attention: crash loops, image pull errors, failures.
    Critical,
    /// Transitional: pending, terminating, init progress, partial readiness.
    Warning,
    /// Normal operation, and any status not otherwise recognized.
    Healthy,
    /// The deletion marker.
    Unknown,
}

/// The status given to an item that stands for a deleted object.
pub open spec fn deleted_marker() -> Seq<char> {
    "[DELETED]"@
}

pub open spec fn is_critical_exact(s: Seq<char>) -> bool {
    s == "Failed"@ || s == "Error"@ || s == "OOMKilled"@ || s == "NotReady"@
        || s == "Lost"@ || s == "Evicted"@ || s == "BackOff"@
}

pub open spec fn is_critical_prefixed(s: Seq<char>) -> bool {
    "CrashLoop"@.is_prefix_of(s) || "ErrImage"@.is_prefix_of(s)
        || "ImagePull"@.is_prefix_of(s) || "Init:Error"@.is_prefix_of(s)
        || "Init:ErrImage"@.is_prefix_of(s) || "Init:ImagePull"@.is_prefix_of(s)
        || "Failed("@.is_prefix_of(s)
}

pub open spec fn is_warning_exact(s: Seq<char>) -> bool {
    s == "Pending"@ || s == "Terminating"@ || s == "ContainerCreating"@ || s == "Unknown"@
}

pub open spec fn is_healthy_exact(s: Seq<char>) -> bool {
    s == "Running"@ || s == "Active"@ || s == "Bound"@ || s == "Complete"@
        || s == "Succeeded"@ || s == "Ready"@ || s == "Scheduled"@ || s == "ClusterIP"@
        || s == "NodePort"@ || s == "LoadBalancer"@
}

/// A nonempty run of ASCII decimal digits.
pub open spec fn is_digit_run(t: Seq<char>) -> bool {
    t.len() > 0 && forall|j: int| 0 <= j < t.len() ==> '0' <= #[trigger] t[j] <= '9'
}

/// `s` is `a/b` with its `/` at index `i` and `a`, `b` runs of digits.
pub open spec fn ratio_at(s: Seq<char>, i: int) -> bool {
    &&& 0 <= i < s.len()
    &&& s[i] == '/'
    &&& is_digit_run(s.subrange(0, i))
    &&& is_digit_run(s.subrange(i + 1, s.len() as int))
}

/// `s` is a numeric ratio `a/b`, such as `2/3`.
pub open spec fn is_numeric_ratio(s: Seq<char>) -> bool {
    exists|i: int| ratio_at(s, i)
}

/// `s` is a numeric ratio whose two sides are the same text, such as `3/3`.
pub open spec fn is_balanced_ratio(s: Seq<char>) -> bool {
    exists|i: int| ratio_at(s, i) && s.subrange(0, i) == s.subrange(i + 1, s.len() as int)
}

/// The health tier of a status string. The rules apply in this order: exact
/// critical names, critical prefixes, exact warning names, the `Init:` prefix,
/// the deletion marker, exact healthy names, the `Active(` prefix, ratios
/// `a/b` (healthy when both sides are equal), and healthy for everything else.
pub open spec fn health_of(s: Seq<char>) -> StatusHealth {
    if is_critical_exact(s) {
        StatusHealth::Critical
    } else if is_critical_prefixed(s) {
        StatusHealth::Critical
    } else if is_warning_exact(s) {
        StatusHealth::Warning
    } else if "Init:"@.is_prefix_of(s) {
        StatusHealth::Warning
    } else if s == deleted_marker() {
        StatusHealth::Unknown
    } else if is_healthy_exact(s) {
        StatusHealth::Healthy
    } else if "Active("@.is_prefix_of(s) {
        StatusHealth::Healthy
    } else if is_numeric_ratio(s) {
        if is_balanced_ratio(s) {
            StatusHealth::Healthy
        } else {
            StatusHealth::Warning
        }
    } else {
        StatusHealth::Healthy
    }
}

/// Sort priority of a tier: critical 0, warning and unknown 1, healthy 2.
pub open spec fn priority_of(h: StatusHealth) -> u8 {
    match h {
        StatusHealth::Critical => 0,
        StatusHealth::Warning => 1,
        StatusHealth::Unknown => 1,
        StatusHealth::Healthy => 2,
    }
}

/// Display color of a tier.
pub open spec fn health_color(h: StatusHealth) -> Color {
    match h {
        StatusHealth::Critical => Color::Red,
        StatusHealth::Warning => Color::Yellow,
        StatusHealth::Healthy => Color::Green,
        StatusHealth::Unknown => Color::DarkGray,
    }
}

/// Sort priority of a status string, through its tier.
pub open spec fn status_rank(s: Seq<char>) -> u8 {
    priority_of(health_of(s))
}

fn is_critical_exact_exec(s: &str) -> (r: bool)
    ensures
        r == is_critical_exact(s@),
{
    same_text(s, "Failed") || same_text(s, "Error") || same_text(s, "OOMKilled")
        || same_text(s, "NotReady") || same_text(s, "Lost") || same_text(s, "Evicted")
        || same_text(s, "BackOff")
}

fn is_critical_prefixed_exec(s: &str) -> (r: bool)
    ensures
        r == is_critical_prefixed(s@),
{
    has_prefix(s, "CrashLoop") || has_prefix(s, "ErrImage") || has_prefix(s, "ImagePull")
        || has_prefix(s, "Init:Error") || has_prefix(s, "Init:ErrImage")
        || has_prefix(s, "Init:ImagePull") || has_prefix(s, "Failed(")
}

fn is_warning_exact_exec(s: &str) -> (r: bool)
    ensures
        r == is_warning_exact(s@),
{
    same_text(s, "Pending") || same_text(s, "Terminating") || same_text(s, "ContainerCreating")
        || same_text(s, "Unknown")
}

fn is_healthy_exact_exec(s: &str) -> (r: bool)
    ensures
        r == is_healthy_exact(s@),
{
    same_text(s, "Running") || same_text(s, "Active") || same_text(s, "Bound")
        || same_text(s, "Complete") || same_text(s, "Succeeded") || same_text(s, "Ready")
        || same_text(s, "Scheduled") || same_text(s, "ClusterIP") || same_text(s, "NodePort")
        || same_text(s, "LoadBalancer")
}

fn digits_between(v: &Vec<char>, from: usize, to: usize) -> (r: bool)
    requires
        from <= to <= v.len(),
    ensures
        r == (forall|j: int| from <= j < to ==> '0' <= #[trigger] v@[j] <= '9'),
{
    let mut j: usize = from;
    while j < to
        invariant
            from <= j <= to <= v.len(),
            forall|t: int| from <= t < j ==> '0' <= #[trigger] v@[t] <= '9',
        decreases to - j,
    {
        if !('0' <= v[j] && v[j] <= '9') {
            return false;
        }
        j = j + 1;
    }
    true
}

/// Health of a numeric ratio `a/b`: healthy when both sides are the same
/// text, else warning; `None` when `s` is not a numeric ratio.
fn ratio_health(s: &str) -> (r: Option<StatusHealth>)
    ensures
        r == (if !is_numeric_ratio(s@) {
            None
        } else if is_balanced_ratio(s@) {
            Some(StatusHealth::Healthy)
        } else {
            Some(StatusHealth::Warning)
        }),
{
    let v = chars_of(s);
    let n = v.len();
    let mut i: usize = 0;
    while i < n && v[i] != '/'
        invariant
            v@ == s@,
            n == v.len(),
            i <= n,
            forall|j: int| 0 <= j < i ==> v@[j] != '/',
        decreases n - i,
    {
        i = i + 1;
    }
    // Any `/` of a numeric ratio is the first one.
    assert forall|k: int| ratio_at(s@, k) implies k == i by {
        if k < i {
            assert(v@[k] != '/');
        } else if k > i {
            assert(s@.subrange(0, k)[i as int] == '/');
        }
    }
    if i == n {
        return None;
    }
    let ghost left = s@.subrange(0, i as int);
    let ghost right = s@.subrange(i + 1, n as int);
    let numeric = i > 0 && i + 1 < n && digits_between(&v, 0, i) && digits_between(&v, i + 1, n);
    if !numeric {
        assert(!ratio_at(s@, i as int)) by {
            if ratio_at(s@, i as int) {
                assert forall|j: int| 0 <= j < i implies '0' <= #[trigger] v@[j] <= '9' by {
                    assert(left[j] == v@[j]);
                }
                assert forall|j: int| i + 1 <= j < n implies '0' <= #[trigger] v@[j] <= '9' by {
                    assert(right[j - i - 1] == v@[j]);
                }
            }
        }
        return None;
    }
    assert(ratio_at(s@, i as int)) by {
        assert forall|j: int| 0 <= j < left.len() implies '0' <= #[trigger] left[j] <= '9' by {
            assert(left[j] == v@[j]);
        }
        assert forall|j: int| 0 <= j < right.len() implies '0' <= #[trigger] right[j] <= '9' by {
            assert(right[j] == v@[i + 1 + j]);
        }
    }
    let mut equal = n - i - 1 == i;
    if !equal {
        assert(left.len() != right.len());
    }
    let mut j: usize = 0;
    while equal && j < i
        invariant
            v@ == s@,
            n == v.len(),
            i < n,
            v@[i as int] == '/',
            j <= i,
            equal ==> n - i - 1 == i,
            equal ==> forall|t: int| 0 <= t < j ==> #[trigger] left[t] == right[t],
            !equal ==> left != right,
            left == s@.subrange(0, i as int),
            right == s@.subrange(i + 1, n as int),
        decreases i - j + (if equal { 1int } else { 0int }),
    {
        if v[j] != v[i + 1 + j] {
            assert(left[j as int] != right[j as int]);
            equal = false;
        } else {
            j = j + 1;
        }
    }
    if equal {
        assert(left =~= right);
        Some(StatusHealth::Healthy)
    } else {
        Some(StatusHealth::Warning)
    }
}

/// A status string that stands for each tier.
pub open spec fn canonical_status(h: StatusHealth) -> Seq<char> {
    match h {
        StatusHealth::Critical => "Failed"@,
        StatusHealth::Warning => "Pending"@,
        StatusHealth::Healthy => "Running"@,
        StatusHealth::Unknown => deleted_marker(),
    }
}

/// Classification is idempotent: the status that stands for a tier is
/// classified into that same tier, so reclassifying the outcome of any
/// classification gives the same tier again.
pub proof fn lemma_classify_idempotent(s: Seq<char>)
    ensures
        health_of(canonical_status(health_of(s))) == health_of(s),
{
    reveal_strlit("Failed");
    reveal_strlit("Error");
    reveal_strlit("OOMKilled");
    reveal_strlit("NotReady");
    reveal_strlit("Lost");
    reveal_strlit("Evicted");
    reveal_strlit("BackOff");
    reveal_strlit("CrashLoop");
    reveal_strlit("ErrImage");
    reveal_strlit("ImagePull");
    reveal_strlit("Init:Error");
    reveal_strlit("Init:ErrImage");
    reveal_strlit("Init:ImagePull");
    reveal_strlit("Failed(");
    reveal_strlit("Pending");
    reveal_strlit("Terminating");
    reveal_strlit("ContainerCreating");
    reveal_strlit("Unknown");
    reveal_strlit("Init:");
    reveal_strlit("[DELETED]");
    reveal_strlit("Running");
    reveal_strlit("Active");
    reveal_strlit("Bound");
    reveal_strlit("Complete");
    reveal_strlit("Succeeded");
    reveal_strlit("Ready");
    reveal_strlit("Scheduled");
    reveal_strlit("ClusterIP");
    reveal_strlit("NodePort");
    reveal_strlit("LoadBalancer");
    reveal_strlit("Active(");
    lemma_first_char_differs("CrashLoop"@, "Pending"@);
    lemma_first_char_differs("ErrImage"@, "Pending"@);
    lemma_first_char_differs("ImagePull"@, "Pending"@);
    lemma_first_char_differs("Init:Error"@, "Pending"@);
    lemma_first_char_differs("Init:ErrImage"@, "Pending"@);
    lemma_first_char_differs("Init:ImagePull"@, "Pending"@);
    lemma_first_char_differs("Failed("@, "Pending"@);
    lemma_first_char_differs("Init:"@, "Pending"@);
    lemma_first_char_differs("Active("@, "Pending"@);
    lemma_first_char_differs("CrashLoop"@, "Running"@);
    lemma_first_char_differs("ErrImage"@, "Running"@);
    lemma_first_char_differs("ImagePull"@, "Running"@);
    lemma_first_char_differs("Init:Error"@, "Running"@);
    lemma_first_char_differs("Init:ErrImage"@, "Running"@);
    lemma_first_char_differs("Init:ImagePull"@, "Running"@);
    lemma_first_char_differs("Failed("@, "Running"@);
    lemma_first_char_differs("Init:"@, "Running"@);
    lemma_first_char_differs("Active("@, "Running"@);
    lemma_first_char_differs("CrashLoop"@, "[DELETED]"@);
    lemma_first_char_differs("ErrImage"@, "[DELETED]"@);
    lemma_first_char_differs("ImagePull"@, "[DELETED]"@);
    lemma_first_char_differs("Init:Error"@, "[DELETED]"@);
    lemma_first_char_differs("Init:ErrImage"@, "[DELETED]"@);
    lemma_first_char_differs("Init:ImagePull"@, "[DELETED]"@);
    lemma_first_char_differs("Failed("@, "[DELETED]"@);
    lemma_first_char_differs("Init:"@, "[DELETED]"@);
    lemma_first_char_differs("Active("@, "[DELETED]"@);
    assert(!"Pending"@.contains('/')) by {
        assert(forall|i: int| 0 <= i < "Pending"@.len() ==> "Pending"@[i] != '/');
    }
    assert(!"Running"@.contains('/')) by {
        assert(forall|i: int| 0 <= i < "Running"@.len() ==> "Running"@[i] != '/');
    }
    assert(health_of("Failed"@) == StatusHealth::Critical);
    assert(health_of("Pending"@) == StatusHealth::Warning);
    assert(health_of("[DELETED]"@) == StatusHealth::Unknown);
    assert("Running"@ != "Unknown"@) by {
        assert("Running"@[0] != "Unknown"@[0]);
    }
    assert("Running"@ != "Pending"@) by {
        assert("Running"@[0] != "Pending"@[0]);
    }
    assert(!is_critical_exact("Running"@));
    assert(!is_warning_exact("Running"@));
    assert(is_healthy_exact("Running"@));
    assert(health_of("Running"@) == StatusHealth::Healthy);
}

proof fn lemma_first_char_differs(p: Seq<char>, s: Seq<char>)
    requires
        p.len() > 0,
        s.len() > 0,
        p[0] != s[0],
    ensures
        !p.is_prefix_of(s),
{
    if p.is_prefix_of(s) {
        assert(s.subrange(0, p.len() as int)[0] == s[0]);
    }
}

impl StatusHealth {
    /// Classify a status string into its health tier.
    pub fn classify(status: &str) -> (r: Self)
        ensures
            r == health_of(status@),
    {
        if is_critical_exact_exec(status) {
            StatusHealth::Critical
        } else if is_critical_prefixed_exec(status) {
            StatusHealth::Critical
        } else if is_warning_exact_exec(status) {
            StatusHealth::Warning
        } else if has_prefix(status, "Init:") {
            StatusHealth::Warning
        } else if same_text(status, "[DELETED]") {
            StatusHealth::Unknown
        } else if is_healthy_exact_exec(status) {
            StatusHealth::Healthy
        } else if has_prefix(status, "Active(") {
            StatusHealth::Healthy
        } else {
            match ratio_health(status) {
                Some(h) => h,
                None => StatusHealth::Healthy,
            }
        }
    }

    /// Display color of this tier.
    pub fn color(self) -> (r: Color)
        ensures
            r == health_color(self),
    {
        match self {
            StatusHealth::Critical => Color::Red,
            StatusHealth::Warning => Color::Yellow,
            StatusHealth::Healthy => Color::Green,
            StatusHealth::Unknown => Color::DarkGray,
        }
    }

    /// Sort priority: 0 for critical, 1 for warning and unknown, 2 for healthy.
    pub fn priority(self) -> (r: u8)
        ensures
            r == priority_of(self),
    {
        match self {
            StatusHealth::Critical => 0,
            StatusHealth::Warning | StatusHealth::Unknown => 1,
            StatusHealth::Healthy => 2,
        }
    }
}


/// The kinds of resource the browser watches.
#[derive(Debug, Clone, Copy, PartialEq, Eq, Hash, Structural)]
pub enum ResourceKind {
    Pod,
    Service,
    Deployment,
    StatefulSet,
    DaemonSet,
    ConfigMap,
    Secret,
    Ingress,
    Node,
    Namespace,
    PersistentVolume,
    PersistentVolumeClaim,
    Job,
    CronJob,
}

/// The short identifier of a kind, as the orchestration CLI accepts it.
pub open spec fn kind_name(k: ResourceKind) -> Seq<char> {
    match k {
        ResourceKind::Pod => "pod"@,
        ResourceKind::Service => "svc"@,
        ResourceKind::Deployment => "deploy"@,
        ResourceKind::StatefulSet => "sts"@,
        ResourceKind::DaemonSet => "ds"@,
        ResourceKind::ConfigMap => "cm"@,
        ResourceKind::Secret => "secret"@,
        ResourceKind::Ingress => "ing"@,
        ResourceKind::Node => "node"@,
        ResourceKind::Namespace => "ns"@,
        ResourceKind::PersistentVolume => "pv"@,
        ResourceKind::PersistentVolumeClaim => "pvc"@,
        ResourceKind::Job => "job"@,
        ResourceKind::CronJob => "cronjob"@,
    }
}

/// The display color of a kind.
pub open spec fn kind_color(k: ResourceKind) -> Color {
    match k {
        ResourceKind::Pod => Color::Green,
        ResourceKind::Service => Color::Blue,
        ResourceKind::Deployment | ResourceKind::StatefulSet | ResourceKind::DaemonSet => Color::Yellow,
        ResourceKind::ConfigMap | ResourceKind::Secret => Color::Magenta,
        ResourceKind::Ingress => Color::Cyan,
        ResourceKind::Node | ResourceKind::Namespace => Color::White,
        ResourceKind::PersistentVolume | ResourceKind::PersistentVolumeClaim => Color::LightMagenta,
        ResourceKind::Job | ResourceKind::CronJob => Color::LightBlue,
    }
}

/// Kinds that live outside any namespace.
pub open spec fn kind_is_cluster_scoped(k: ResourceKind) -> bool {
    k == ResourceKind::Node || k == ResourceKind::Namespace || k == ResourceKind::PersistentVolume
}

impl ResourceKind {
    /// The short identifier of this kind.
    pub fn as_str(self) -> (r: &'static str)
        ensures
            r@ == kind_name(self),
    {
        match self {
            ResourceKind::Pod => "pod",
            ResourceKind::Service => "svc",
            ResourceKind::Deployment => "deploy",
            ResourceKind::StatefulSet => "sts",
            ResourceKind::DaemonSet => "ds",
            ResourceKind::ConfigMap => "cm",
            ResourceKind::Secret => "secret",
            ResourceKind::Ingress => "ing",
            ResourceKind::Node => "node",
            ResourceKind::Namespace => "ns",
            ResourceKind::PersistentVolume => "pv",
            ResourceKind::PersistentVolumeClaim => "pvc",
            ResourceKind::Job => "job",
            ResourceKind::CronJob => "cronjob",
        }
    }

    /// The display color of this kind.
    pub fn color(self) -> (r: Color)
        ensures
            r == kind_color(self),
    {
        match self {
            ResourceKind::Pod => Color::Green,
            ResourceKind::Service => Color::Blue,
            ResourceKind::Deployment | ResourceKind::StatefulSet | ResourceKind::DaemonSet => Color::Yellow,
            ResourceKind::ConfigMap | ResourceKind::Secret => Color::Magenta,
            ResourceKind::Ingress => Color::Cyan,
            ResourceKind::Node | ResourceKind::Namespace => Color::White,
            ResourceKind::PersistentVolume | ResourceKind::PersistentVolumeClaim => Color::LightMagenta,
            ResourceKind::Job | ResourceKind::CronJob => Color::LightBlue,
        }
    }

    /// Whether this kind lives outside any namespace; such kinds ignore a
    /// namespace restriction.
    pub fn is_cluster_scoped(self) -> (r: bool)
        ensures
            r == kind_is_cluster_scoped(self),
    {
        match self {
            ResourceKind::Node | ResourceKind::Namespace | ResourceKind::PersistentVolume => true,
            _ => false,
        }
    }
}

/// What an item holds, as mathematical values.
pub struct ItemView {
    pub kind: ResourceKind,
    pub namespace: Seq<char>,
    pub name: Seq<char>,
    pub status: Seq<char>,
    pub age: Seq<char>,
    pub context: Seq<char>,
}

/// One observed object: kind, namespace (empty when cluster-scoped), name,
/// status text, age text, and the cluster context (empty with a single cluster).
#[derive(Debug)]
pub struct K8sItem {
    kind: ResourceKind,
    namespace: String,
    name: String,
    status: String,
    age: String,
    context: String,
}

impl View for K8sItem {
    type V = ItemView;

    closed spec fn view(&self) -> ItemView {
        ItemView {
            kind: self.kind,
            namespace: self.namespace@,
            name: self.name@,
            status: self.status@,
            age: self.age@,
            context: self.context@,
        }
    }
}

/// The location `kind/name` or `kind/namespace/name`, prefixed by `context:`
/// when the item belongs to a named cluster context.
pub open spec fn output_text(v: ItemView) -> Seq<char> {
    let loc = if v.namespace.len() == 0 {
        kind_name(v.kind) + "/"@ + v.name
    } else {
        kind_name(v.kind) + "/"@ + v.namespace + "/"@ + v.name
    };
    if v.context.len() == 0 {
        loc
    } else {
        v.context + ":"@ + loc
    }
}

/// The selector's match text of an item whose name is shown as `short`.
pub open spec fn text_with(v: ItemView, short: Seq<char>) -> Seq<char> {
    padded(kind_name(v.kind), 8) + " "@
        + (if v.context.len() == 0 { Seq::empty() } else { v.context + "/"@ })
        + (if v.namespace.len() == 0 { Seq::empty() } else { v.namespace + "/"@ })
        + short + " "@ + v.status + " "@ + v.age
}

impl K8sItem {
    pub fn new(
        kind: ResourceKind,
        namespace: &str,
        name: &str,
        status: &str,
        age: &str,
        context: &str,
    ) -> (r: Self)
        ensures
            r@ == (ItemView {
                kind,
                namespace: namespace@,
                name: name@,
                status: status@,
                age: age@,
                context: context@,
            }),
    {
        K8sItem {
            kind,
            namespace: text_of(namespace),
            name: text_of(name),
            status: text_of(status),
            age: text_of(age),
            context: text_of(context),
        }
    }

    /// Builds an item from owned strings.
    pub fn from_parts(
        kind: ResourceKind,
        namespace: String,
        name: String,
        status: String,
        age: String,
        context: String,
    ) -> (r: Self)
        ensures
            r@ == (ItemView {
                kind,
                namespace: namespace@,
                name: name@,
                status: status@,
                age: age@,
                context: context@,
            }),
    {
        K8sItem { kind, namespace, name, status, age, context }
    }

    pub fn kind(&self) -> (r: ResourceKind)
        ensures
            r == self@.kind,
    {
        self.kind
    }

    pub fn namespace(&self) -> (r: &str)
        ensures
            r@ == self@.namespace,
    {
        self.namespace.as_str()
    }

    pub fn name(&self) -> (r: &str)
        ensures
            r@ == self@.name,
    {
        self.name.as_str()
    }

    pub fn status(&self) -> (r: &str)
        ensures
            r@ == self@.status,
    {
        self.status.as_str()
    }

    pub fn age(&self) -> (r: &str)
        ensures
            r@ == self@.age,
    {
        self.age.as_str()
    }

    pub fn context(&self) -> (r: &str)
        ensures
            r@ == self@.context,
    {
        self.context.as_str()
    }

    /// Color of the status, through its health tier.
    pub fn status_color(&self) -> (r: Color)
        ensures
            r == health_color(health_of(self@.status)),
    {
        StatusHealth::classify(self.status.as_str()).color()
    }

    /// The text the selector matches against: the kind in a column of 8,
    /// then `context/` and `namespace/` when present, the name cut to 31
    /// bytes, the status and the age.
    pub fn text(&self) -> (r: String)
        requires
            encode_utf8(self@.name).len() <= usize::MAX,
        ensures
            exists|short: Seq<char>|
                r@ == #[trigger] text_with(self@, short) && truncation_of(self@.name, 31, short),
    {
        proof {
            reveal_strlit("");
        }
        let mut out = pad_right(self.kind.as_str(), 8);
        out.append(" ");
        if !self.context.as_str().is_empty() {
            out.append(self.context.as_str());
            out.append("/");
        }
        if !self.namespace.as_str().is_empty() {
            out.append(self.namespace.as_str());
            out.append("/");
        }
        let short = truncate_name(self.name.as_str(), 31);
        out.append(short.as_str());
        out.append(" ");
        out.append(self.status.as_str());
        out.append(" ");
        out.append(self.age.as_str());
        assert(out@ =~= text_with(self@, short@));
        out
    }

    /// Machine-readable location of the item, for piping to other tools.
    pub fn output_str(&self) -> (r: String)
        ensures
            r@ == output_text(self@),
    {
        let mut loc = text_of(self.kind.as_str());
        loc.append("/");
        if !self.namespace.as_str().is_empty() {
            loc.append(self.namespace.as_str());
            loc.append("/");
        }
        loc.append(self.name.as_str());
        if self.context.as_str().is_empty() {
            assert(loc@ =~= output_text(self@));
            loc
        } else {
            let mut out = text_of(self.context.as_str());
            out.append(":");
            out.append(loc.as_str());
            assert(out@ =~= output_text(self@));
            out
        }
    }
}

/// The largest character boundary of `b` at or below `max`.
pub open spec fn cut_point(b: Seq<u8>, max: int) -> int
    decreases max,
{
    if max <= 0 {
        0
    } else if is_char_boundary(b, max) {
        max
    } else {
        cut_point(b, max - 1)
    }
}

/// `short` is `name` cut to at most `max` bytes of UTF-8: the name itself
/// when it fits; else its bytes up to the last character boundary that fits,
/// followed by `…`.
pub open spec fn truncation_of(name: Seq<char>, max: int, short: Seq<char>) -> bool {
    let b = encode_utf8(name);
    &&& b.len() <= max ==> short == name
    &&& b.len() > max ==> {
        &&& short.len() > 0
        &&& short.last() == '…'
        &&& encode_utf8(short.drop_last()) == b.subrange(0, cut_point(b, max))
    }
}

/// Shortens `name` to at most `max_bytes` bytes of UTF-8, cut at the last
/// character boundary that fits, and marks the cut with `…`; a name that
/// fits is returned as it is.
pub fn truncate_name(name: &str, max_bytes: usize) -> (r: String)
    requires
        name.spec_bytes().len() <= usize::MAX,
    ensures
        truncation_of(name@, max_bytes as int, r@),
{
    if name.len() <= max_bytes {
        return name.to_owned();
    }
    proof {
        vstd::utf8::encode_utf8_valid_utf8(name@);
    }
    let mut end = max_bytes;
    while !name.is_char_boundary(end) && end > 0
        invariant
            end <= max_bytes,
            max_bytes < name.spec_bytes().len(),
            vstd::utf8::valid_utf8(name.spec_bytes()),
            cut_point(name.spec_bytes(), max_bytes as int) == cut_point(name.spec_bytes(), end as int),
        decreases end,
    {
        end = end - 1;
    }
    assert(cut_point(name.spec_bytes(), end as int) == end as int);
    let (head, _) = name.split_at(end);
    let mut out = head.to_owned();
    out.append("…");
    proof {
        reveal_strlit("…");
        assert(out@.drop_last() =~= head@);
    }
    out
}

/// The colors given to cluster contexts.
pub open spec fn context_palette(i: int) -> Color {
    if i == 0 { Color::Cyan }
    else if i == 1 { Color::Magenta }
    else if i == 2 { Color::Yellow }
    else if i == 3 { Color::LightGreen }
    else if i == 4 { Color::LightBlue }
    else if i == 5 { Color::LightRed }
    else if i == 6 { Color::LightCyan }
    else { Color::LightMagenta }
}

/// The sum of the first `n` bytes.
pub open spec fn byte_sum(b: Seq<u8>, n: int) -> int
    decreases n,
{
    if n <= 0 { 0 } else { byte_sum(b, n - 1) + b[n - 1] as int }
}

/// The color of a cluster context: the sum of its name's bytes picks one of
/// eight colors, so a context always gets the same color.
pub open spec fn context_color_of(ctx: Seq<u8>) -> Color {
    context_palette(byte_sum(ctx, ctx.len() as int) % 8)
}

/// A stable color for a cluster context name.
pub fn context_color(ctx: &str) -> (r: Color)
    ensures
        r == context_color_of(ctx.spec_bytes()),
{
    let bytes = ctx.as_bytes();
    let mut acc: usize = 0;
    let mut i: usize = 0;
    while i < bytes.len()
        invariant
            bytes@ == ctx.spec_bytes(),
            i <= bytes.len(),
            acc < 8,
            acc as int == byte_sum(bytes@, i as int) % 8,
        decreases bytes.len() - i,
    {
        proof {
            vstd::arithmetic::div_mod::lemma_add_mod_noop(byte_sum(bytes@, i as int), bytes@[i as int] as int, 8);
            vstd::arithmetic::div_mod::lemma_add_mod_noop(acc as int, bytes@[i as int] as int, 8);
            vstd::arithmetic::div_mod::lemma_mod_twice(byte_sum(bytes@, i as int), 8);
        }
        acc = (acc + bytes[i] as usize) % 8;
        i = i + 1;
    }
    match acc {
        0 => Color::Cyan,
        1 => Color::Magenta,
        2 => Color::Yellow,
        3 => Color::LightGreen,
        4 => Color::LightBlue,
        5 => Color::LightRed,
        6 => Color::LightCyan,
        _ => Color::LightMagenta,
    }
}

} // verus!
