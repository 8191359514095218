//! The reactive cell runtime: observable state cells and a subscription
//! registry keyed by cell identity. A view's subscriptions are rebuilt on
//! every render pass — cleared when the pass begins, repopulated by the reads
//! the pass performs — so a view that stops reading a cell is unsubscribed
//! from it by its next render. A write hands back exactly the views
//! subscribed to the written cell, each once, so the event loop can re-invoke
//! them.

use vstd::prelude::*;
use vstd::seq_lib::group_seq_properties;

verus! {

/// The value held by one reactive cell: each of the site's cells is an
/// integer, a text, or a flag.
#[derive(Debug)]
pub enum Value {
    Int(i64),
    Text(String),
    Flag(bool),
}

/// An exact copy of a cell value.
fn clone_value(v: &Value) -> (r: Value)
    ensures
        r == *v,
{
    match v {
        Value::Int(n) => Value::Int(*n),
        Value::Text(s) => Value::Text(s.clone()),
        Value::Flag(b) => Value::Flag(*b),
    }
}

/// No subscription pair occurs twice.
pub open spec fn distinct_pairs(s: Seq<(usize, usize)>) -> bool {
    forall|i: int, j: int| 0 <= i < j < s.len() ==> s[i] != s[j]
}

/// The subscription pairs that survive clearing one view's subscriptions.
pub open spec fn without_viewer(s: Seq<(usize, usize)>, viewer: usize) -> Seq<(usize, usize)>
    decreases s.len(),
{
    if s.len() == 0 {
        Seq::empty()
    } else if s.last().1 == viewer {
        without_viewer(s.drop_last(), viewer)
    } else {
        without_viewer(s.drop_last(), viewer).push(s.last())
    }
}

/// The views subscribed to one cell, in registration order.
pub open spec fn viewers_of(s: Seq<(usize, usize)>, cell: usize) -> Seq<usize>
    decreases s.len(),
{
    if s.len() == 0 {
        Seq::empty()
    } else if s.last().0 == cell {
        viewers_of(s.drop_last(), cell).push(s.last().1)
    } else {
        viewers_of(s.drop_last(), cell)
    }
}

/// Clearing one view's subscriptions keeps exactly the pairs of other views,
/// and keeps the registry free of duplicates.
pub proof fn lemma_without_viewer(s: Seq<(usize, usize)>, viewer: usize)
    ensures
        forall|p: (usize, usize)| #[trigger]
            without_viewer(s, viewer).contains(p) <==> (s.contains(p) && p.1 != viewer),
        distinct_pairs(s) ==> distinct_pairs(without_viewer(s, viewer)),
    decreases s.len(),
{
    broadcast use group_seq_properties;

    if s.len() > 0 {
        lemma_without_viewer(s.drop_last(), viewer);
        assert(s =~= s.drop_last().push(s.last()));
        if distinct_pairs(s) {
            assert(distinct_pairs(s.drop_last()));
            if s.last().1 != viewer {
                let kept = without_viewer(s.drop_last(), viewer);
                assert(!s.drop_last().contains(s.last()));
                assert(!kept.contains(s.last()));
                assert(without_viewer(s, viewer) == kept.push(s.last()));
                assert forall|i: int, j: int|
                    0 <= i < j < without_viewer(s, viewer).len() implies without_viewer(
                    s,
                    viewer,
                )[i] != without_viewer(s, viewer)[j] by {
                    if j < kept.len() {
                    } else {
                        assert(kept.contains(kept[i]));
                    }
                }
            }
        }
    }
}

/// The views a write must notify are exactly those with a subscription pair
/// for the written cell; with a duplicate-free registry, each appears once.
pub proof fn lemma_viewers_of(s: Seq<(usize, usize)>, cell: usize)
    ensures
        forall|w: usize| #[trigger] viewers_of(s, cell).contains(w) <==> s.contains((cell, w)),
        distinct_pairs(s) ==> (forall|i: int, j: int|
            0 <= i < j < viewers_of(s, cell).len() ==> viewers_of(s, cell)[i] != viewers_of(
                s,
                cell,
            )[j]),
    decreases s.len(),
{
    broadcast use group_seq_properties;

    if s.len() > 0 {
        lemma_viewers_of(s.drop_last(), cell);
        assert(s =~= s.drop_last().push(s.last()));
        let p = s.last();
        assert(p == (p.0, p.1));
        let prior = viewers_of(s.drop_last(), cell);
        assert forall|w: usize| #[trigger]
            viewers_of(s, cell).contains(w) <==> s.contains((cell, w)) by {
            if p.0 == cell {
                assert(viewers_of(s, cell) == prior.push(p.1));
                if viewers_of(s, cell).contains(w) {
                    if prior.contains(w) {
                        assert(s.contains((cell, w)));
                    } else {
                        assert(w == p.1);
                        assert((cell, w) == p);
                        assert(s.contains((cell, w)));
                    }
                }
                if s.contains((cell, w)) {
                    if s.drop_last().contains((cell, w)) {
                        assert(prior.contains(w));
                    } else {
                        assert((cell, w) == p);
                        assert(w == p.1);
                    }
                    assert(viewers_of(s, cell).contains(w));
                }
            } else {
                assert(viewers_of(s, cell) == prior);
                if s.contains((cell, w)) {
                    assert((cell, w) != p);
                    assert(s.drop_last().contains((cell, w)));
                }
            }
        }
        if distinct_pairs(s) {
            assert(distinct_pairs(s.drop_last()));
            if p.0 == cell {
                let w = p.1;
                assert((cell, w) == p);
                assert(!s.drop_last().contains((cell, w)));
                assert(!prior.contains(w));
                assert(viewers_of(s, cell) == prior.push(w));
                assert forall|i: int, j: int|
                    0 <= i < j < viewers_of(s, cell).len() implies viewers_of(s, cell)[i]
                    != viewers_of(s, cell)[j] by {
                    if j < prior.len() {
                    } else {
                        assert(prior.contains(prior[i]));
                    }
                }
            }
        }
    }
}

/// The reactive runtime: the cells' current values and the subscription
/// registry, a set of (cell, view) pairs.
pub struct Runtime {
    cells: Vec<Value>,
    subs: Vec<(usize, usize)>,
}

impl Runtime {
    /// The current value of every cell, by cell identity.
    pub closed spec fn cell_values(self) -> Seq<Value> {
        self.cells@
    }

    /// Whether `viewer` is subscribed to `cell`.
    pub closed spec fn subscribed(self, cell: usize, viewer: usize) -> bool {
        self.subs@.contains((cell, viewer))
    }

    /// The registry never holds a subscription twice.
    pub closed spec fn wf(self) -> bool {
        distinct_pairs(self.subs@)
    }

    /// A fresh runtime: no cells, no subscriptions.
    pub fn new() -> (rt: Runtime)
        ensures
            rt.wf(),
            rt.cell_values() == Seq::<Value>::empty(),
            forall|c: usize, w: usize| !rt.subscribed(c, w),
    {
        let rt = Runtime { cells: Vec::new(), subs: Vec::new() };
        proof {
            broadcast use group_seq_properties;

            assert(rt.cells@ =~= Seq::<Value>::empty());
        }
        rt
    }

    /// Create a cell holding `init`; its identity is the next free index.
    pub fn create_cell(&mut self, init: Value) -> (id: usize)
        requires
            old(self).wf(),
        ensures
            final(self).wf(),
            id == old(self).cell_values().len(),
            final(self).cell_values() == old(self).cell_values().push(init),
            forall|c: usize, w: usize|
                final(self).subscribed(c, w) == old(self).subscribed(c, w),
    {
        let id = self.cells.len();
        self.cells.push(init);
        id
    }

    /// Read a cell's current value without tracking.
    pub fn read(&self, cell: usize) -> (v: &Value)
        requires
            cell < self.cell_values().len(),
        ensures
            *v == self.cell_values()[cell as int],
    {
        &self.cells[cell]
    }

    /// Begin a render pass for `viewer`: clear every subscription that view
    /// holds, leaving all other views' subscriptions untouched. The reads the
    /// pass then performs rebuild the view's subscriptions, so a cell the
    /// view no longer reads no longer notifies it.
    pub fn begin_render(&mut self, viewer: usize)
        requires
            old(self).wf(),
        ensures
            final(self).wf(),
            final(self).cell_values() == old(self).cell_values(),
            forall|c: usize| !final(self).subscribed(c, viewer),
            forall|c: usize, w: usize|
                w != viewer ==> final(self).subscribed(c, w) == old(self).subscribed(c, w),
    {
        let ghost orig = self.subs@;
        let mut kept: Vec<(usize, usize)> = Vec::new();
        let mut i: usize = 0;
        proof {
            assert(orig.take(0) =~= Seq::<(usize, usize)>::empty());
            assert(kept@ =~= without_viewer(orig.take(0), viewer));
        }
        while i < self.subs.len()
            invariant
                i <= orig.len(),
                self.subs@ == orig,
                kept@ == without_viewer(orig.take(i as int), viewer),
            decreases orig.len() - i,
        {
            let p = self.subs[i];
            proof {
                assert(orig.take(i + 1).drop_last() =~= orig.take(i as int));
                assert(orig.take(i + 1).last() == p);
            }
            if p.1 != viewer {
                kept.push(p);
            }
            i = i + 1;
        }
        proof {
            assert(orig.take(orig.len() as int) =~= orig);
            lemma_without_viewer(orig, viewer);
        }
        self.subs = kept;
    }

    /// Register that `viewer` read `cell` during its current render pass:
    /// subscribe it, once, leaving every other subscription as it was.
    pub fn track(&mut self, cell: usize, viewer: usize)
        requires
            old(self).wf(),
        ensures
            final(self).wf(),
            final(self).cell_values() == old(self).cell_values(),
            final(self).subscribed(cell, viewer),
            forall|c: usize, w: usize|
                (c, w) != (cell, viewer) ==> final(self).subscribed(c, w) == old(self).subscribed(
                    c,
                    w,
                ),
    {
        proof {
            broadcast use group_seq_properties;

        }
        let mut i: usize = 0;
        while i < self.subs.len()
            invariant
                i <= self.subs@.len(),
                self.subs@ == old(self).subs@,
                self.cells@ == old(self).cells@,
                distinct_pairs(self.subs@),
                forall|k: int| 0 <= k < i ==> self.subs@[k] != (cell, viewer),
            decreases self.subs@.len() - i,
        {
            let p = self.subs[i];
            if p.0 == cell && p.1 == viewer {
                proof {
                    assert(self.subs@.contains((cell, viewer)));
                }
                return ;
            }
            i = i + 1;
        }
        proof {
            assert(!self.subs@.contains((cell, viewer)));
            let extended = self.subs@.push((cell, viewer));
            assert forall|a: int, b: int| 0 <= a < b < extended.len() implies extended[a]
                != extended[b] by {
                if b < self.subs@.len() {
                } else {
                    assert(self.subs@.contains(extended[a]));
                }
            }
        }
        self.subs.push((cell, viewer));
    }

    /// Read a cell during `viewer`'s render pass: the read both returns the
    /// cell's current value and subscribes the view to the cell.
    pub fn read_in_render(&mut self, cell: usize, viewer: usize) -> (v: Value)
        requires
            old(self).wf(),
            cell < old(self).cell_values().len(),
        ensures
            final(self).wf(),
            v == old(self).cell_values()[cell as int],
            final(self).cell_values() == old(self).cell_values(),
            final(self).subscribed(cell, viewer),
            forall|c: usize, w: usize|
                (c, w) != (cell, viewer) ==> final(self).subscribed(c, w) == old(self).subscribed(
                    c,
                    w,
                ),
    {
        self.track(cell, viewer);
        clone_value(&self.cells[cell])
    }

    /// Write a cell: replace its value and hand back the views that must be
    /// re-invoked — exactly those currently subscribed to this cell, each
    /// exactly once. Subscriptions themselves are unchanged; the re-invoked
    /// views' render passes will rebuild theirs.
    pub fn write(&mut self, cell: usize, value: Value) -> (dirty: Vec<usize>)
        requires
            old(self).wf(),
            cell < old(self).cell_values().len(),
        ensures
            final(self).wf(),
            final(self).cell_values() == old(self).cell_values().update(cell as int, value),
            forall|c: usize, w: usize|
                final(self).subscribed(c, w) == old(self).subscribed(c, w),
            forall|w: usize| #[trigger] dirty@.contains(w) <==> old(self).subscribed(cell, w),
            forall|i: int, j: int| 0 <= i < j < dirty@.len() ==> dirty@[i] != dirty@[j],
    {
        self.cells.set(cell, value);
        let ghost registry = self.subs@;
        let mut dirty: Vec<usize> = Vec::new();
        let mut i: usize = 0;
        proof {
            assert(registry.take(0) =~= Seq::<(usize, usize)>::empty());
            assert(dirty@ =~= viewers_of(registry.take(0), cell));
        }
        while i < self.subs.len()
            invariant
                i <= registry.len(),
                self.subs@ == registry,
                dirty@ == viewers_of(registry.take(i as int), cell),
            decreases registry.len() - i,
        {
            let p = self.subs[i];
            proof {
                assert(registry.take(i + 1).drop_last() =~= registry.take(i as int));
                assert(registry.take(i + 1).last() == p);
            }
            if p.0 == cell {
                dirty.push(p.1);
            }
            i = i + 1;
        }
        proof {
            assert(registry.take(registry.len() as int) =~= registry);
            lemma_viewers_of(registry, cell);
        }
        dirty
    }
}

} // verus!
