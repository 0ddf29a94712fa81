//! The watch engine's decisions: the display order of a batch, the state
//! machine of one per-kind watch task, and the coordinator that merges every
//! task's first listing into a single sorted batch.
use vstd::prelude::*;
use crate::items::{kind_is_cluster_scoped, status_rank, ItemView, K8sItem, ResourceKind, StatusHealth};
use crate::objects::{object_kind, RawObject, Time};
use crate::resources::{item_matches, make_item};

verus! {

/// The views of a sequence of items.
pub open spec fn views(s: Seq<K8sItem>) -> Seq<ItemView> {
    s.map_values(|i: K8sItem| i@)
}

/// Holds of items whose status has sort priority `p`.
pub open spec fn ranked(p: u8) -> spec_fn(ItemView) -> bool {
    |v: ItemView| status_rank(v.status) == p
}

/// The order in which a batch is sent: healthy items first, then warning and
/// unknown, then critical last; items of one priority keep their order. The
/// selector shows later items nearer the top, so critical ones stand out.
pub open spec fn display_order(s: Seq<ItemView>) -> Seq<ItemView> {
    s.filter(ranked(2)) + s.filter(ranked(1)) + s.filter(ranked(0))
}

proof fn lemma_filter_push(s: Seq<ItemView>, x: ItemView, p: spec_fn(ItemView) -> bool)
    ensures
        s.push(x).filter(p) == (if p(x) { s.filter(p).push(x) } else { s.filter(p) }),
{
    reveal(Seq::filter);
    assert(s.push(x).drop_last() =~= s);
}

proof fn lemma_split_len(s: Seq<ItemView>)
    ensures
        s.filter(ranked(2)).len() + s.filter(ranked(1)).len() + s.filter(ranked(0)).len() == s.len(),
    decreases s.len(),
{
    if s.len() > 0 {
        let init = s.drop_last();
        lemma_split_len(init);
        assert(s == init.push(s.last()));
        lemma_filter_push(init, s.last(), ranked(2));
        lemma_filter_push(init, s.last(), ranked(1));
        lemma_filter_push(init, s.last(), ranked(0));
    }
}

/// Putting a batch into display order only reorders it: every item stays,
/// as many times as it occurs, and nothing is added.
pub proof fn lemma_display_order_permutes(s: Seq<ItemView>)
    ensures
        display_order(s).to_multiset() == s.to_multiset(),
    decreases s.len(),
{
    broadcast use vstd::seq_lib::group_to_multiset_ensures;
    broadcast use vstd::seq_lib::lemma_multiset_commutative;
    if s.len() == 0 {
        assert(display_order(s) =~= Seq::<ItemView>::empty()) by {
            reveal(Seq::filter);
        }
    } else {
        let init = s.drop_last();
        let x = s.last();
        lemma_display_order_permutes(init);
        assert(s == init.push(x));
        lemma_filter_push(init, x, ranked(2));
        lemma_filter_push(init, x, ranked(1));
        lemma_filter_push(init, x, ranked(0));
        let a = init.filter(ranked(2));
        let b = init.filter(ranked(1));
        let c = init.filter(ranked(0));
        vstd::seq_lib::lemma_multiset_commutative(a, b);
        vstd::seq_lib::lemma_multiset_commutative(a + b, c);
        let r = status_rank(x.status);
        assert(r == 0 || r == 1 || r == 2);
        if r == 2 {
            vstd::seq_lib::lemma_multiset_commutative(a.push(x), b);
            vstd::seq_lib::lemma_multiset_commutative(a.push(x) + b, c);
            assert(display_order(s).to_multiset() =~= display_order(init).to_multiset().insert(x));
        } else if r == 1 {
            vstd::seq_lib::lemma_multiset_commutative(a, b.push(x));
            vstd::seq_lib::lemma_multiset_commutative(a + b.push(x), c);
            assert(display_order(s).to_multiset() =~= display_order(init).to_multiset().insert(x));
        } else {
            vstd::seq_lib::lemma_multiset_commutative(a + b, c.push(x));
            assert(display_order(s) == (a + b + c).push(x));
            assert(display_order(s).to_multiset() =~= display_order(init).to_multiset().insert(x));
        }
    }
}

/// A batch in display order holds every item of the batch, no more, and its
/// priorities never increase from one item to the next: healthy (2) items
/// come first and critical (0) ones last.
pub proof fn lemma_display_order_sorted(s: Seq<ItemView>)
    ensures
        display_order(s).len() == s.len(),
        forall|i: int| 0 <= i < s.len() ==> display_order(s).contains(#[trigger] s[i]),
        forall|i: int, j: int|
            0 <= i < j < s.len() ==> status_rank(#[trigger] display_order(s)[i].status)
                >= status_rank(#[trigger] display_order(s)[j].status),
{
    broadcast use vstd::seq_lib::group_filter_ensures;
    lemma_split_len(s);
    let a = s.filter(ranked(2));
    let b = s.filter(ranked(1));
    let c = s.filter(ranked(0));
    let d = display_order(s);
    assert(d == a + b + c);
    assert forall|i: int| 0 <= i < s.len() implies d.contains(#[trigger] s[i]) by {
        let r = status_rank(s[i].status);
        assert(r == 0 || r == 1 || r == 2);
        if r == 2 {
            assert(a.contains(s[i]));
            let k = choose|k: int| 0 <= k < a.len() && a[k] == s[i];
            assert(d[k] == s[i]);
        } else if r == 1 {
            assert(b.contains(s[i]));
            let k = choose|k: int| 0 <= k < b.len() && b[k] == s[i];
            assert(d[a.len() + k] == s[i]);
        } else {
            assert(c.contains(s[i]));
            let k = choose|k: int| 0 <= k < c.len() && c[k] == s[i];
            assert(d[a.len() + b.len() + k] == s[i]);
        }
    }
    assert forall|i: int| 0 <= i < d.len() implies status_rank(#[trigger] d[i].status) == (if i
        < a.len() { 2u8 } else if i < a.len() + b.len() { 1u8 } else { 0u8 }) by {
        if i < a.len() {
            assert(ranked(2)(a[i]));
        } else if i < a.len() + b.len() {
            assert(ranked(1)(b[i - a.len()]));
        } else {
            assert(ranked(0)(c[i - a.len() - b.len()]));
        }
    }
}

/// Sorts a batch into display order (stable, by descending priority number).
pub fn sort_for_display(items: Vec<K8sItem>) -> (r: Vec<K8sItem>)
    ensures
        views(r@) == display_order(views(items@)),
{
    let ghost src = views(items@);
    let mut healthy: Vec<K8sItem> = Vec::new();
    let mut middle: Vec<K8sItem> = Vec::new();
    let mut critical: Vec<K8sItem> = Vec::new();
    for item in it: items
        invariant
            it.seq() == items@,
            src == views(items@),
            views(healthy@) == src.take(it.index() as int).filter(ranked(2)),
            views(middle@) == src.take(it.index() as int).filter(ranked(1)),
            views(critical@) == src.take(it.index() as int).filter(ranked(0)),
    {
        let ghost k = it.index() as int;
        proof {
            assert(src.take(k + 1) =~= src.take(k).push(item@));
            lemma_filter_push(src.take(k), item@, ranked(2));
            lemma_filter_push(src.take(k), item@, ranked(1));
            lemma_filter_push(src.take(k), item@, ranked(0));
        }
        let p = StatusHealth::classify(item.status()).priority();
        if p == 2 {
            healthy.push(item);
            assert(views(healthy@) =~= src.take(k + 1).filter(ranked(2)));
        } else if p == 1 {
            middle.push(item);
            assert(views(middle@) =~= src.take(k + 1).filter(ranked(1)));
        } else {
            critical.push(item);
            assert(views(critical@) =~= src.take(k + 1).filter(ranked(0)));
        }
    }
    assert(src.take(src.len() as int) =~= src);
    let ghost h = healthy@;
    let ghost m = middle@;
    healthy.append(&mut middle);
    assert(views(healthy@) =~= views(h) + views(m));
    let ghost hm = healthy@;
    healthy.append(&mut critical);
    assert(views(healthy@) =~= views(hm) + src.filter(ranked(0)));
    healthy
}

/// Where a watch task stands in its listing cycle.
#[derive(Debug, Clone, Copy, PartialEq, Eq, Structural)]
pub enum TaskPhase {
    /// No listing cycle has started yet.
    AwaitingInit,
    /// A listing is in progress: objects seen are buffered.
    Buffering,
    /// The listing is complete: changes are forwarded as they come.
    Streaming,
}

/// A lifecycle event of one watch stream, with its object already turned into an item.
pub enum ItemEvent {
    /// A fresh listing cycle starts (first connect or reconnect).
    Init,
    /// An object that existed before the watch connected.
    Seen(K8sItem),
    /// The initial listing is complete.
    ListComplete,
    /// A live addition or change.
    Applied(K8sItem),
    /// A live deletion; the item carries the deletion marker as its status.
    Deleted(K8sItem),
}

pub enum EventView {
    Init,
    Seen(ItemView),
    ListComplete,
    Applied(ItemView),
    Deleted(ItemView),
}

impl View for ItemEvent {
    type V = EventView;

    open spec fn view(&self) -> EventView {
        match self {
            ItemEvent::Init => EventView::Init,
            ItemEvent::Seen(i) => EventView::Seen(i@),
            ItemEvent::ListComplete => EventView::ListComplete,
            ItemEvent::Applied(i) => EventView::Applied(i@),
            ItemEvent::Deleted(i) => EventView::Deleted(i@),
        }
    }
}

/// What a watch task asks its driver to do after an event.
pub enum TaskAction {
    /// Nothing to forward.
    Nothing,
    /// Send this batch to the output channel as it is.
    Send(Vec<K8sItem>),
    /// Hand this first listing to the coordinator.
    Contribute(Vec<K8sItem>),
}

pub enum ActionView {
    Nothing,
    Send(Seq<ItemView>),
    Contribute(Seq<ItemView>),
}

impl View for TaskAction {
    type V = ActionView;

    open spec fn view(&self) -> ActionView {
        match self {
            TaskAction::Nothing => ActionView::Nothing,
            TaskAction::Send(v) => ActionView::Send(views(v@)),
            TaskAction::Contribute(v) => ActionView::Contribute(views(v@)),
        }
    }
}

/// The state of a watch task, as mathematical values.
pub struct TaskView {
    pub kind: ResourceKind,
    pub context: Seq<char>,
    pub buffer: Seq<ItemView>,
    pub phase: TaskPhase,
    pub first_done: bool,
}

/// One step of a watch task: its next state and what it asks for.
pub open spec fn task_step(s: TaskView, e: EventView) -> (TaskView, ActionView) {
    match e {
        EventView::Init => (
            TaskView { buffer: Seq::empty(), phase: TaskPhase::Buffering, ..s },
            ActionView::Nothing,
        ),
        EventView::Seen(i) => if s.phase == TaskPhase::Streaming {
            (s, ActionView::Send(seq![i]))
        } else {
            (TaskView { buffer: s.buffer.push(i), ..s }, ActionView::Nothing)
        },
        EventView::ListComplete => if s.first_done {
            (
                TaskView { buffer: Seq::empty(), phase: TaskPhase::Streaming, ..s },
                if s.buffer.len() == 0 {
                    ActionView::Nothing
                } else {
                    ActionView::Send(display_order(s.buffer))
                },
            )
        } else {
            (
                TaskView {
                    buffer: Seq::empty(),
                    phase: TaskPhase::Streaming,
                    first_done: true,
                    ..s
                },
                ActionView::Contribute(s.buffer),
            )
        },
        EventView::Applied(i) => (s, ActionView::Send(seq![i])),
        EventView::Deleted(i) => (s, ActionView::Send(seq![i])),
    }
}

/// The state machine of one watch stream (one kind in one cluster context).
/// Objects of a listing are buffered; the first completed listing goes to the
/// coordinator, later ones (after a reconnect) are sent directly, sorted.
pub struct WatchTask {
    kind: ResourceKind,
    context: String,
    buffer: Vec<K8sItem>,
    phase: TaskPhase,
    first_done: bool,
}

impl View for WatchTask {
    type V = TaskView;

    closed spec fn view(&self) -> TaskView {
        TaskView {
            kind: self.kind,
            context: self.context@,
            buffer: views(self.buffer@),
            phase: self.phase,
            first_done: self.first_done,
        }
    }
}

impl WatchTask {
    /// A task for `kind`, labelling its items with `context`.
    pub fn new(kind: ResourceKind, context: &str) -> (r: Self)
        ensures
            r@ == (TaskView {
                kind,
                context: context@,
                buffer: Seq::empty(),
                phase: TaskPhase::AwaitingInit,
                first_done: false,
            }),
    {
        let r = WatchTask {
            kind,
            context: context.to_owned(),
            buffer: Vec::new(),
            phase: TaskPhase::AwaitingInit,
            first_done: false,
        };
        assert(views(r.buffer@) =~= Seq::empty());
        r
    }

    pub fn kind(&self) -> (r: ResourceKind)
        ensures
            r == self@.kind,
    {
        self.kind
    }

    pub fn context(&self) -> (r: &str)
        ensures
            r@ == self@.context,
    {
        self.context.as_str()
    }

    pub fn phase(&self) -> (r: TaskPhase)
        ensures
            r == self@.phase,
    {
        self.phase
    }

    /// Whether the first listing of the stream has gone to the coordinator.
    pub fn first_listing_done(&self) -> (r: bool)
        ensures
            r == self@.first_done,
    {
        self.first_done
    }

    fn take_buffer(&mut self) -> (r: Vec<K8sItem>)
        ensures
            r@ == old(self).buffer@,
            final(self).buffer@ == Seq::<K8sItem>::empty(),
            final(self).kind == old(self).kind,
            final(self).context == old(self).context,
            final(self).phase == old(self).phase,
            final(self).first_done == old(self).first_done,
    {
        let mut taken: Vec<K8sItem> = Vec::new();
        taken.append(&mut self.buffer);
        assert(taken@ =~= old(self).buffer@);
        taken
    }

    /// Handles one event of the stream, in delivery order.
    pub fn handle(&mut self, event: ItemEvent) -> (r: TaskAction)
        ensures
            (final(self)@, r@) == task_step(old(self)@, event@),
    {
        match event {
            ItemEvent::Init => {
                self.buffer.clear();
                self.phase = TaskPhase::Buffering;
                assert(views(self.buffer@) =~= Seq::empty());
                TaskAction::Nothing
            },
            ItemEvent::Seen(item) => {
                if self.phase == TaskPhase::Streaming {
                    let batch = vec![item];
                    assert(views(batch@) =~= seq![item@]);
                    TaskAction::Send(batch)
                } else {
                    self.buffer.push(item);
                    assert(views(self.buffer@) =~= views(old(self).buffer@).push(item@));
                    TaskAction::Nothing
                }
            },
            ItemEvent::ListComplete => {
                let listed = self.take_buffer();
                self.phase = TaskPhase::Streaming;
                assert(views(self.buffer@) =~= Seq::empty());
                if self.first_done {
                    if listed.len() == 0 {
                        TaskAction::Nothing
                    } else {
                        TaskAction::Send(sort_for_display(listed))
                    }
                } else {
                    self.first_done = true;
                    TaskAction::Contribute(listed)
                }
            },
            ItemEvent::Applied(item) => {
                let batch = vec![item];
                assert(views(batch@) =~= seq![item@]);
                TaskAction::Send(batch)
            },
            ItemEvent::Deleted(item) => {
                let batch = vec![item];
                assert(views(batch@) =~= seq![item@]);
                TaskAction::Send(batch)
            },
        }
    }
}

/// A lifecycle event of one watch stream, as the cluster client delivers it.
pub enum LifecycleEvent {
    /// A fresh listing cycle starts (first connect or reconnect).
    Init,
    /// An object that existed before the watch connected.
    ObjectSeen(RawObject),
    /// The initial listing is complete.
    InitialListComplete,
    /// A live addition or change.
    Applied(RawObject),
    /// A live deletion.
    Deleted(RawObject),
}

/// Every object that `ev` carries is of kind `kind`.
pub open spec fn event_of_kind(ev: &LifecycleEvent, kind: ResourceKind) -> bool {
    match ev {
        LifecycleEvent::ObjectSeen(o) => object_kind(o) == kind,
        LifecycleEvent::Applied(o) => object_kind(o) == kind,
        LifecycleEvent::Deleted(o) => object_kind(o) == kind,
        _ => true,
    }
}

/// `e` is what a task labelling items with `context` makes of `ev` at `now`:
/// the same event, with each object turned into its item.
pub open spec fn translates(ev: &LifecycleEvent, context: Seq<char>, now: Time, e: EventView) -> bool {
    match ev {
        LifecycleEvent::Init => e is Init,
        LifecycleEvent::ObjectSeen(o) => e matches EventView::Seen(v) && item_matches(v, o, false, context, now),
        LifecycleEvent::InitialListComplete => e is ListComplete,
        LifecycleEvent::Applied(o) => e matches EventView::Applied(v) && item_matches(v, o, false, context, now),
        LifecycleEvent::Deleted(o) => e matches EventView::Deleted(v) && item_matches(v, o, true, context, now),
    }
}

/// The items of `e` are all of kind `kind`.
pub open spec fn items_of_kind(e: EventView, kind: ResourceKind) -> bool {
    match e {
        EventView::Seen(v) => v.kind == kind,
        EventView::Applied(v) => v.kind == kind,
        EventView::Deleted(v) => v.kind == kind,
        _ => true,
    }
}

impl WatchTask {
    /// Turns a lifecycle event that arrived at `now` into an item event,
    /// building items for objects; the stream delivers objects of the
    /// task's kind only.
    pub fn translate(&self, event: LifecycleEvent, now: Time) -> (r: ItemEvent)
        requires
            event_of_kind(&event, self@.kind),
        ensures
            translates(&event, self@.context, now, r@),
            items_of_kind(r@, self@.kind),
    {
        match event {
            LifecycleEvent::Init => ItemEvent::Init,
            LifecycleEvent::ObjectSeen(o) => ItemEvent::Seen(make_item(&o, false, self.context.as_str(), now)),
            LifecycleEvent::InitialListComplete => ItemEvent::ListComplete,
            LifecycleEvent::Applied(o) => ItemEvent::Applied(make_item(&o, false, self.context.as_str(), now)),
            LifecycleEvent::Deleted(o) => ItemEvent::Deleted(make_item(&o, true, self.context.as_str(), now)),
        }
    }

    /// Handles one lifecycle event of the stream, arrived at `now`, in
    /// delivery order.
    pub fn on_event(&mut self, event: LifecycleEvent, now: Time) -> (r: TaskAction)
        requires
            event_of_kind(&event, old(self)@.kind),
        ensures
            exists|e: EventView|
                translates(&event, old(self)@.context, now, e) && items_of_kind(e, old(self)@.kind)
                    && (final(self)@, r@) == #[trigger] task_step(old(self)@, e),
    {
        let item_event = self.translate(event, now);
        let ghost e = item_event@;
        let r = self.handle(item_event);
        assert(translates(&event, old(self)@.context, now, e) && items_of_kind(e, old(self)@.kind)
            && (final(self)@, r@) == task_step(old(self)@, e));
        r
    }
}

/// One watch stream to open: a kind in a cluster context, with the namespace
/// it is restricted to, if any.
pub struct WatchTarget {
    pub context: String,
    pub kind: ResourceKind,
    pub namespace: Option<String>,
}

/// The namespace a watch of `kind` is restricted to: none for cluster-scoped
/// kinds, whatever was asked.
pub open spec fn scope_of(kind: ResourceKind, namespace: Option<Seq<char>>) -> Option<Seq<char>> {
    if kind_is_cluster_scoped(kind) { None } else { namespace }
}

pub open spec fn opt_view(o: Option<String>) -> Option<Seq<char>> {
    match o {
        Some(s) => Some(s@),
        None => None,
    }
}

/// The streams of an engine run: for each context in order, each kind in order.
pub open spec fn plan_matches(
    plan: Seq<WatchTarget>,
    contexts: Seq<String>,
    kinds: Seq<ResourceKind>,
    namespace: Option<Seq<char>>,
) -> bool {
    &&& plan.len() == contexts.len() * kinds.len()
    &&& forall|c: int, k: int|
        0 <= c < contexts.len() && 0 <= k < kinds.len() ==> {
            let t = #[trigger] plan[c * kinds.len() + k];
            &&& t.context@ == contexts[c]@
            &&& t.kind == kinds[k]
            &&& opt_view(t.namespace) == scope_of(kinds[k], namespace)
        }
}

/// Lists the watch streams of an engine run: one per (context, kind) pair.
/// The coordinator awaits exactly this many first listings.
pub fn watch_plan(contexts: &Vec<String>, kinds: &Vec<ResourceKind>, namespace: Option<&str>) -> (r: Vec<WatchTarget>)
    requires
        contexts.len() * kinds.len() <= usize::MAX,
    ensures
        plan_matches(r@, contexts@, kinds@, match namespace {
            Some(s) => Some(s@),
            None => None,
        }),
{
    let ghost ns = match namespace {
        Some(s) => Some(s@),
        None => None,
    };
    let mut plan: Vec<WatchTarget> = Vec::new();
    let mut c: usize = 0;
    while c < contexts.len()
        invariant
            c <= contexts.len(),
            contexts.len() * kinds.len() <= usize::MAX,
            ns == (match namespace { Some(s) => Some(s@), None => None::<Seq<char>> }),
            plan.len() == c * kinds.len(),
            forall|c2: int, k: int|
                0 <= c2 < c && 0 <= k < kinds.len() ==> {
                    let t = #[trigger] plan@[c2 * kinds.len() + k];
                    &&& t.context@ == contexts@[c2]@
                    &&& t.kind == kinds@[k]
                    &&& opt_view(t.namespace) == scope_of(kinds@[k], ns)
                },
        decreases contexts.len() - c,
    {
        let mut k: usize = 0;
        while k < kinds.len()
            invariant
                c < contexts.len(),
                k <= kinds.len(),
                contexts.len() * kinds.len() <= usize::MAX,
                ns == (match namespace { Some(s) => Some(s@), None => None::<Seq<char>> }),
                plan.len() == c * kinds.len() + k,
                forall|c2: int, k2: int|
                    0 <= c2 < c && 0 <= k2 < kinds.len() ==> {
                        let t = #[trigger] plan@[c2 * kinds.len() + k2];
                        &&& t.context@ == contexts@[c2]@
                        &&& t.kind == kinds@[k2]
                        &&& opt_view(t.namespace) == scope_of(kinds@[k2], ns)
                    },
                forall|k2: int|
                    0 <= k2 < k ==> {
                        let t = #[trigger] plan@[c * kinds.len() + k2];
                        &&& t.context@ == contexts@[c as int]@
                        &&& t.kind == kinds@[k2]
                        &&& opt_view(t.namespace) == scope_of(kinds@[k2], ns)
                    },
            decreases kinds.len() - k,
        {
            proof {
                vstd::arithmetic::mul::lemma_mul_is_distributive_add_other_way(kinds.len() as int, c as int, 1);
                vstd::arithmetic::mul::lemma_mul_inequality(c as int + 1, contexts.len() as int, kinds.len() as int);
            }
            let kind = kinds[k];
            let scope = if kind.is_cluster_scoped() {
                None
            } else {
                match namespace {
                    Some(s) => Some(s.to_owned()),
                    None => None,
                }
            };
            let ghost before = plan@;
            plan.push(WatchTarget { context: contexts[c].clone(), kind, namespace: scope });
            assert forall|c2: int, k2: int|
                0 <= c2 < c && 0 <= k2 < kinds.len() implies {
                    let t = #[trigger] plan@[c2 * kinds.len() + k2];
                    &&& t.context@ == contexts@[c2]@
                    &&& t.kind == kinds@[k2]
                    &&& opt_view(t.namespace) == scope_of(kinds@[k2], ns)
                } by {
                vstd::arithmetic::mul::lemma_mul_inequality(c2 + 1, c as int, kinds.len() as int);
                vstd::arithmetic::mul::lemma_mul_is_distributive_add_other_way(kinds.len() as int, c2, 1);
                assert(plan@[c2 * kinds.len() + k2] == before[c2 * kinds.len() + k2]);
            }
            k = k + 1;
        }
        proof {
            vstd::arithmetic::mul::lemma_mul_is_distributive_add_other_way(kinds.len() as int, c as int, 1);
        }
        c = c + 1;
    }
    plan
}

/// The actions a task asks for while it handles the events `es` in order.
pub open spec fn task_actions(s: TaskView, es: Seq<EventView>) -> Seq<ActionView>
    decreases es.len(),
{
    if es.len() == 0 {
        Seq::empty()
    } else {
        seq![task_step(s, es[0]).1] + task_actions(task_step(s, es[0]).0, es.drop_first())
    }
}

/// After a reconnect, a task whose first listing was already handed to the
/// coordinator sends its new listing itself, sorted into display order (or
/// nothing when it is empty); no event ever makes it contribute again, and
/// it stays in that condition.
pub proof fn lemma_relisting_sent_directly(s: TaskView, e: EventView)
    requires
        s.first_done,
    ensures
        task_step(s, EventView::ListComplete).1 == (if s.buffer.len() == 0 {
            ActionView::Nothing
        } else {
            ActionView::Send(display_order(s.buffer))
        }),
        !(task_step(s, e).1 is Contribute),
        task_step(s, e).0.first_done,
{
}

proof fn lemma_task_actions_len(s: TaskView, es: Seq<EventView>)
    ensures
        task_actions(s, es).len() == es.len(),
    decreases es.len(),
{
    if es.len() > 0 {
        lemma_task_actions_len(task_step(s, es[0]).0, es.drop_first());
    }
}

proof fn lemma_no_contribution_after_first(s: TaskView, es: Seq<EventView>)
    requires
        s.first_done,
    ensures
        forall|i: int| 0 <= i < es.len() ==> !(#[trigger] task_actions(s, es)[i] is Contribute),
    decreases es.len(),
{
    if es.len() > 0 {
        let s1 = task_step(s, es[0]).0;
        lemma_relisting_sent_directly(s, es[0]);
        lemma_no_contribution_after_first(s1, es.drop_first());
        lemma_task_actions_len(s1, es.drop_first());
        let acts = task_actions(s, es);
        assert forall|i: int| 0 <= i < es.len() implies !(#[trigger] acts[i] is Contribute) by {
            if i > 0 {
                assert(acts[i] == task_actions(s1, es.drop_first())[i - 1]);
            }
        }
    }
}

/// Whatever events a task handles, including any number of reconnects, it
/// hands a listing to the coordinator at most once.
pub proof fn lemma_contributes_at_most_once(s: TaskView, es: Seq<EventView>)
    ensures
        forall|i: int, j: int|
            0 <= i < j < es.len() ==> !(#[trigger] task_actions(s, es)[i] is Contribute
                && #[trigger] task_actions(s, es)[j] is Contribute),
    decreases es.len(),
{
    if es.len() > 0 {
        let s1 = task_step(s, es[0]).0;
        let rest = es.drop_first();
        let acts = task_actions(s, es);
        lemma_contributes_at_most_once(s1, rest);
        lemma_task_actions_len(s1, rest);
        if task_step(s, es[0]).1 is Contribute {
            lemma_no_contribution_after_first(s1, rest);
        }
        assert forall|i: int, j: int| 0 <= i < j < es.len() implies !(#[trigger] acts[i] is Contribute
            && #[trigger] acts[j] is Contribute) by {
            assert(acts[j] == task_actions(s1, rest)[j - 1]);
            if i > 0 {
                assert(acts[i] == task_actions(s1, rest)[i - 1]);
            }
        }
    }
}

/// The state of a task after it handles the events `es` in order.
pub open spec fn task_after(s: TaskView, es: Seq<EventView>) -> TaskView
    decreases es.len(),
{
    if es.len() == 0 {
        s
    } else {
        task_after(task_step(s, es[0]).0, es.drop_first())
    }
}

/// The events that deliver the objects `vs` of a listing, in order.
pub open spec fn seen_events(vs: Seq<ItemView>) -> Seq<EventView> {
    vs.map_values(|v: ItemView| EventView::Seen(v))
}

proof fn lemma_run_concat(s: TaskView, a: Seq<EventView>, b: Seq<EventView>)
    ensures
        task_actions(s, a + b) == task_actions(s, a) + task_actions(task_after(s, a), b),
        task_after(s, a + b) == task_after(task_after(s, a), b),
    decreases a.len(),
{
    if a.len() == 0 {
        assert(a + b =~= b);
    } else {
        let s1 = task_step(s, a[0]).0;
        lemma_run_concat(s1, a.drop_first(), b);
        assert((a + b).drop_first() =~= a.drop_first() + b);
        assert((a + b)[0] == a[0]);
        assert(task_actions(s, a + b) =~= seq![task_step(s, a[0]).1] + task_actions(s1, a.drop_first() + b));
    }
}

proof fn lemma_buffering(s: TaskView, vs: Seq<ItemView>)
    requires
        s.phase != TaskPhase::Streaming,
    ensures
        task_after(s, seen_events(vs)) == (TaskView { buffer: s.buffer + vs, ..s }),
        task_actions(s, seen_events(vs)).len() == vs.len(),
        forall|i: int| 0 <= i < vs.len() ==> #[trigger] task_actions(s, seen_events(vs))[i] is Nothing,
    decreases vs.len(),
{
    let es = seen_events(vs);
    if vs.len() == 0 {
        assert(s.buffer + vs =~= s.buffer);
    } else {
        let s1 = task_step(s, es[0]).0;
        assert(es[0] == EventView::Seen(vs[0]));
        assert(es.drop_first() =~= seen_events(vs.drop_first()));
        lemma_buffering(s1, vs.drop_first());
        assert(s1.buffer + vs.drop_first() =~= s.buffer + vs);
        let acts = task_actions(s, es);
        assert forall|i: int| 0 <= i < vs.len() implies #[trigger] acts[i] is Nothing by {
            if i > 0 {
                assert(acts[i] == task_actions(s1, seen_events(vs.drop_first()))[i - 1]);
            }
        }
    }
}

/// A reconnect of a task whose first listing already went to the
/// coordinator: the new cycle `Init`, the objects `vs`, then the end of the
/// listing. The task asks for nothing until the end, and then sends exactly
/// its own listing in display order (nothing when it is empty); afterwards
/// its buffer is empty and it is streaming.
pub proof fn lemma_reconnect_listing(s: TaskView, vs: Seq<ItemView>)
    requires
        s.first_done,
    ensures
        ({
            let es = seq![EventView::Init] + seen_events(vs) + seq![EventView::ListComplete];
            let acts = task_actions(s, es);
            &&& acts.len() == vs.len() + 2
            &&& forall|i: int| 0 <= i < vs.len() + 1 ==> #[trigger] acts[i] is Nothing
            &&& acts[vs.len() + 1int] == (if vs.len() == 0 {
                ActionView::Nothing
            } else {
                ActionView::Send(display_order(vs))
            })
            &&& task_after(s, es) == (TaskView {
                buffer: Seq::empty(),
                phase: TaskPhase::Streaming,
                ..s
            })
        }),
{
    let init = seq![EventView::Init];
    let seen = seen_events(vs);
    let done = seq![EventView::ListComplete];
    let s1 = task_step(s, EventView::Init).0;
    lemma_task_actions_len(s, init);
    assert(init.drop_first() =~= Seq::<EventView>::empty());
    assert(done.drop_first() =~= Seq::<EventView>::empty());
    assert(init[0] == EventView::Init);
    assert(task_after(s1, Seq::<EventView>::empty()) == s1);
    assert(task_after(s, init) == task_after(s1, init.drop_first()));
    assert(task_after(s, init) == s1);
    assert(task_actions(s1, Seq::<EventView>::empty()) =~= Seq::<ActionView>::empty());
    assert(task_actions(s, init) == seq![ActionView::Nothing] + task_actions(s1, init.drop_first()));
    assert(task_actions(s, init) =~= seq![ActionView::Nothing]);
    lemma_buffering(s1, vs);
    assert(Seq::<ItemView>::empty() + vs =~= vs);
    let s2 = task_after(s1, seen);
    lemma_run_concat(s, init, seen);
    lemma_run_concat(s, init + seen, done);
    assert(done[0] == EventView::ListComplete);
    let s3 = task_step(s2, EventView::ListComplete).0;
    assert(task_after(s3, Seq::<EventView>::empty()) == s3);
    assert(task_after(s2, done) == task_after(s3, done.drop_first()));
    assert(task_after(s2, done) == s3);
    assert(task_actions(s3, Seq::<EventView>::empty()) =~= Seq::<ActionView>::empty());
    assert(task_actions(s2, done) == seq![task_step(s2, EventView::ListComplete).1]
        + task_actions(s3, done.drop_first()));
    assert(task_actions(s2, done) =~= seq![task_step(s2, EventView::ListComplete).1]);
    let acts = task_actions(s, init + seen + done);
    assert forall|i: int| 0 <= i < vs.len() + 1 implies #[trigger] acts[i] is Nothing by {
        if i > 0 {
            assert(acts[i] == task_actions(s1, seen)[i - 1]);
        }
    }
}

/// One operation on the coordinator: a task's first listing, or a release
/// (at completion or at the deadline).
pub enum CoordinatorOp {
    Contribute(Seq<ItemView>),
    Release,
}

/// What each operation of `ops` releases, in order (`None` for listings and
/// for releases that give nothing).
pub open spec fn released(c: crate::coordinator::CoordinatorView, ops: Seq<CoordinatorOp>) -> Seq<Option<Seq<ItemView>>>
    decreases ops.len(),
{
    if ops.len() == 0 {
        Seq::empty()
    } else {
        match ops[0] {
            CoordinatorOp::Contribute(items) => seq![None] + released(
                crate::coordinator::contribute_step(c, items).0,
                ops.drop_first(),
            ),
            CoordinatorOp::Release => seq![crate::coordinator::release_step(c).1] + released(
                crate::coordinator::release_step(c).0,
                ops.drop_first(),
            ),
        }
    }
}

proof fn lemma_released_after_fired(c: crate::coordinator::CoordinatorView, ops: Seq<CoordinatorOp>)
    requires
        c.fired,
    ensures
        released(c, ops).len() == ops.len(),
        forall|i: int| 0 <= i < ops.len() ==> #[trigger] released(c, ops)[i] is None,
    decreases ops.len(),
{
    if ops.len() > 0 {
        let c1 = match ops[0] {
            CoordinatorOp::Contribute(items) => crate::coordinator::contribute_step(c, items).0,
            CoordinatorOp::Release => crate::coordinator::release_step(c).0,
        };
        lemma_released_after_fired(c1, ops.drop_first());
        let r = released(c, ops);
        assert forall|i: int| 0 <= i < ops.len() implies #[trigger] r[i] is None by {
            if i > 0 {
                assert(r[i] == released(c1, ops.drop_first())[i - 1]);
            }
        }
    }
}

/// Whatever the order of listings, reconnects and releases, the coordinator
/// releases a batch at most once in a run.
pub proof fn lemma_at_most_one_batch(c: crate::coordinator::CoordinatorView, ops: Seq<CoordinatorOp>)
    ensures
        released(c, ops).len() == ops.len(),
        forall|i: int, j: int|
            0 <= i < j < ops.len() ==> !(#[trigger] released(c, ops)[i] is Some
                && #[trigger] released(c, ops)[j] is Some),
    decreases ops.len(),
{
    if ops.len() > 0 {
        let r = released(c, ops);
        let c1 = match ops[0] {
            CoordinatorOp::Contribute(items) => crate::coordinator::contribute_step(c, items).0,
            CoordinatorOp::Release => crate::coordinator::release_step(c).0,
        };
        let rest = ops.drop_first();
        lemma_at_most_one_batch(c1, rest);
        if r[0] is Some {
            lemma_released_after_fired(c1, rest);
        }
        assert forall|i: int, j: int| 0 <= i < j < ops.len() implies !(#[trigger] r[i] is Some
            && #[trigger] r[j] is Some) by {
            assert(r[j] == released(c1, rest)[j - 1]);
            if i > 0 {
                assert(r[i] == released(c1, rest)[i - 1]);
            }
        }
    }
}

} // verus!
