//! The initial-batch coordinator: it gathers the first completed listing of
//! every watch task and releases them, merged and sorted, as one batch.
//! The driver holds it under one lock, so the append, the count and the
//! completion check happen together.
use vstd::prelude::*;
use crate::items::{ItemView, K8sItem};
use crate::items::status_rank;
use crate::watch::{
    display_order, lemma_display_order_permutes, lemma_display_order_sorted, sort_for_display, views,
};

verus! {

/// The coordinator's state, as mathematical values.
pub struct CoordinatorView {
    /// Items of the listings handed in so far.
    pub buffer: Seq<ItemView>,
    /// How many tasks have handed in their first listing.
    pub completed: nat,
    /// How many tasks are watched.
    pub total: nat,
    /// Whether the single batch has been released.
    pub fired: bool,
}

/// Priorities never increase from one item of `b` to the next.
pub open spec fn in_display_order(b: Seq<ItemView>) -> bool {
    forall|i: int, j: int|
        0 <= i < j < b.len() ==> status_rank(#[trigger] b[i].status) >= status_rank(#[trigger] b[j].status)
}

/// A fresh coordinator for `total` tasks.
pub open spec fn fresh(total: nat) -> CoordinatorView {
    CoordinatorView { buffer: Seq::empty(), completed: 0, total, fired: false }
}

/// A task hands in its first listing. The result's flag tells whether this was
/// the last awaited listing, which is the moment to signal completion. A
/// listing that comes after the batch was released is dropped: its objects
/// reach the selector through live events instead.
pub open spec fn contribute_step(c: CoordinatorView, items: Seq<ItemView>) -> (CoordinatorView, bool) {
    if c.fired {
        (c, false)
    } else if c.completed < c.total {
        (
            CoordinatorView { buffer: c.buffer + items, completed: c.completed + 1, ..c },
            c.completed + 1 == c.total,
        )
    } else {
        (CoordinatorView { buffer: c.buffer + items, ..c }, false)
    }
}

/// Releases the batch: once, at completion or at the deadline, whichever comes
/// first. It is the buffered items in display order, or nothing when there are
/// none; every later release gives nothing.
pub open spec fn release_step(c: CoordinatorView) -> (CoordinatorView, Option<Seq<ItemView>>) {
    if c.fired {
        (c, None)
    } else {
        (
            CoordinatorView { buffer: Seq::empty(), fired: true, ..c },
            if c.buffer.len() == 0 { None } else { Some(display_order(c.buffer)) },
        )
    }
}

/// The coordinator state after the listings `bs` are handed in, in order.
pub open spec fn contribute_all(c: CoordinatorView, bs: Seq<Seq<ItemView>>) -> CoordinatorView
    decreases bs.len(),
{
    if bs.len() == 0 {
        c
    } else {
        contribute_all(contribute_step(c, bs[0]).0, bs.drop_first())
    }
}

/// The completion flags returned while the listings `bs` are handed in, in order.
pub open spec fn signals_of(c: CoordinatorView, bs: Seq<Seq<ItemView>>) -> Seq<bool>
    decreases bs.len(),
{
    if bs.len() == 0 {
        Seq::empty()
    } else {
        seq![contribute_step(c, bs[0]).1] + signals_of(contribute_step(c, bs[0]).0, bs.drop_first())
    }
}

/// Shared state of the first-listing merge.
pub struct InitCoordinator {
    buffer: Vec<K8sItem>,
    completed: usize,
    total: usize,
    fired: bool,
}

impl View for InitCoordinator {
    type V = CoordinatorView;

    closed spec fn view(&self) -> CoordinatorView {
        CoordinatorView {
            buffer: views(self.buffer@),
            completed: self.completed as nat,
            total: self.total as nat,
            fired: self.fired,
        }
    }
}

impl InitCoordinator {
    /// A coordinator awaiting the first listing of `total` tasks.
    pub fn new(total: usize) -> (r: Self)
        ensures
            r@ == fresh(total as nat),
            r.wf(),
    {
        let r = InitCoordinator { buffer: Vec::new(), completed: 0, total, fired: false };
        assert(views(r.buffer@) =~= Seq::empty());
        r
    }

    /// The count of completed tasks never passes the total.
    pub closed spec fn wf(&self) -> bool {
        self.completed <= self.total
    }

    pub fn total(&self) -> (r: usize)
        ensures
            r == self@.total,
    {
        self.total
    }

    pub fn completed(&self) -> (r: usize)
        ensures
            r == self@.completed,
    {
        self.completed
    }

    /// Whether the batch has been released.
    pub fn has_fired(&self) -> (r: bool)
        ensures
            r == self@.fired,
    {
        self.fired
    }

    /// Hands in a task's first listing; true when it was the last one awaited.
    pub fn contribute(&mut self, items: Vec<K8sItem>) -> (all_done: bool)
        requires
            old(self).wf(),
        ensures
            final(self).wf(),
            (final(self)@, all_done) == contribute_step(old(self)@, views(items@)),
    {
        if self.fired {
            return false;
        }
        let mut items = items;
        let ghost added = views(items@);
        self.buffer.append(&mut items);
        assert(views(self.buffer@) =~= views(old(self).buffer@) + added);
        if self.completed < self.total {
            self.completed = self.completed + 1;
            self.completed == self.total
        } else {
            false
        }
    }

    /// Releases the single batch: the buffered items in display order, or
    /// `None` when there are none or the batch was already released.
    pub fn release(&mut self) -> (r: Option<Vec<K8sItem>>)
        requires
            old(self).wf(),
        ensures
            final(self).wf(),
            (final(self)@, match r {
                Some(v) => Some(views(v@)),
                None => None::<Seq<ItemView>>,
            }) == release_step(old(self)@),
    {
        if self.fired {
            return None;
        }
        self.fired = true;
        let mut taken: Vec<K8sItem> = Vec::new();
        taken.append(&mut self.buffer);
        assert(views(self.buffer@) =~= Seq::empty());
        assert(views(taken@) =~= views(old(self).buffer@));
        if taken.len() == 0 {
            None
        } else {
            Some(sort_for_display(taken))
        }
    }
}

proof fn lemma_contribute_all_open(c: CoordinatorView, bs: Seq<Seq<ItemView>>)
    requires
        !c.fired,
        c.completed + bs.len() <= c.total,
    ensures
        contribute_all(c, bs) == (CoordinatorView {
            buffer: c.buffer + bs.flatten(),
            completed: c.completed + bs.len(),
            ..c
        }),
        signals_of(c, bs).len() == bs.len(),
        forall|i: int|
            0 <= i < bs.len() ==> #[trigger] signals_of(c, bs)[i] == (c.completed + i + 1 == c.total),
    decreases bs.len(),
{
    if bs.len() == 0 {
        assert(c.buffer + bs.flatten() =~= c.buffer);
    } else {
        let c1 = contribute_step(c, bs[0]).0;
        let rest = bs.drop_first();
        lemma_contribute_all_open(c1, rest);
        assert(c1.buffer + rest.flatten() =~= c.buffer + bs.flatten());
        let sig = signals_of(c, bs);
        assert forall|i: int| 0 <= i < bs.len() implies #[trigger] sig[i] == (c.completed + i + 1 == c.total) by {
            if i > 0 {
                assert(sig[i] == signals_of(c1, rest)[i - 1]);
            }
        }
    }
}

/// When every one of the `bs.len()` watched tasks hands in its first listing,
/// the coordinator signals completion exactly once, at the last listing; the
/// batch it then releases holds exactly the items of all listings (each as
/// often as it was listed) in display order, nothing is sent only when all
/// of them were empty, and no second batch is ever released.
pub proof fn lemma_all_listings_one_batch(bs: Seq<Seq<ItemView>>)
    requires
        bs.len() > 0,
    ensures
        ({
            let c = contribute_all(fresh(bs.len()), bs);
            let signals = signals_of(fresh(bs.len()), bs);
            &&& signals.len() == bs.len()
            &&& forall|i: int| 0 <= i < bs.len() ==> (#[trigger] signals[i] <==> i == bs.len() - 1)
            &&& release_step(c).1 == (if bs.flatten().len() == 0 {
                None
            } else {
                Some(display_order(bs.flatten()))
            })
            &&& release_step(release_step(c).0).1 is None
            &&& release_step(c).1 matches Some(b) ==> b.to_multiset() == bs.flatten().to_multiset()
                && in_display_order(b)
        }),
{
    lemma_display_order_permutes(bs.flatten());
    lemma_display_order_sorted(bs.flatten());
    let c0 = fresh(bs.len());
    lemma_contribute_all_open(c0, bs);
    assert(c0.buffer + bs.flatten() =~= bs.flatten());
}

/// When fewer listings than watched tasks arrive before the deadline, no
/// completion is signalled, and the release at the deadline still yields
/// exactly one batch: exactly the items of the listings that did arrive, in
/// display order (or nothing when they hold no items); any later release
/// yields nothing.
pub proof fn lemma_deadline_partial_batch(total: nat, bs: Seq<Seq<ItemView>>)
    requires
        bs.len() < total,
    ensures
        ({
            let c = contribute_all(fresh(total), bs);
            let signals = signals_of(fresh(total), bs);
            &&& forall|i: int| 0 <= i < signals.len() ==> !(#[trigger] signals[i])
            &&& release_step(c).1 == (if bs.flatten().len() == 0 {
                None
            } else {
                Some(display_order(bs.flatten()))
            })
            &&& release_step(release_step(c).0).1 is None
            &&& release_step(c).1 matches Some(b) ==> b.to_multiset() == bs.flatten().to_multiset()
                && in_display_order(b)
        }),
{
    lemma_display_order_permutes(bs.flatten());
    lemma_display_order_sorted(bs.flatten());
    let c0 = fresh(total);
    lemma_contribute_all_open(c0, bs);
    assert(c0.buffer + bs.flatten() =~= bs.flatten());
}

} // verus!
