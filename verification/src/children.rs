//! Bookkeeping of a container's children, each kept under an id: finding a
//! child by id, applying a document to the children, restoring the order a
//! live update wrote them in, and the order they are drawn in.

use vstd::prelude::*;

verus! {

broadcast use vstd::std_specs::vec::group_vec_axioms;

/// The position of the first id equal to `id`, if there is one.
pub open spec fn first_with_id(ids: Seq<u64>, id: u64) -> Option<int>
    decreases ids.len(),
{
    if ids.len() == 0 {
        None
    } else {
        match first_with_id(ids.drop_last(), id) {
            Some(i) => Some(i),
            None => if ids.last() == id { Some(ids.len() - 1) } else { None },
        }
    }
}

/// The first position with an id is where that id stands, before every other
/// place it stands; there is none exactly when the id stands nowhere.
pub proof fn lemma_first_with_id(ids: Seq<u64>, id: u64)
    ensures
        match first_with_id(ids, id) {
            Some(p) => 0 <= p < ids.len() && ids[p] == id && forall|q: int| 0 <= q < p ==> ids[q] != id,
            None => !ids.contains(id),
        },
    decreases ids.len(),
{
    if ids.len() > 0 {
        let d = ids.drop_last();
        lemma_first_with_id(d, id);
        match first_with_id(d, id) {
            Some(p) => {
                assert(ids[p] == d[p]);
                assert forall|q: int| 0 <= q < p implies ids[q] != id by {
                    assert(ids[q] == d[q]);
                }
            },
            None => {
                assert forall|q: int| 0 <= q < ids.len() - 1 implies ids[q] != id by {
                    assert(ids[q] == d[q]);
                    if ids[q] == id {
                        assert(d.contains(id));
                    }
                }
                if ids.contains(id) {
                    let k = choose|k: int| 0 <= k < ids.len() && ids[k] == id;
                    assert(k == ids.len() - 1);
                }
            },
        }
    }
}

proof fn lemma_first_with_id_prefix(ids: Seq<u64>, id: u64, k: int)
    requires
        0 <= k <= ids.len(),
        first_with_id(ids.take(k), id) is Some,
    ensures
        first_with_id(ids, id) == first_with_id(ids.take(k), id),
    decreases ids.len() - k,
{
    if k < ids.len() {
        assert(ids.take(k + 1).drop_last() =~= ids.take(k));
        lemma_first_with_id_prefix(ids, id, k + 1);
    } else {
        assert(ids.take(k) =~= ids);
    }
}

/// The position of the first id equal to `id`, if there is one.
pub fn position_of(ids: &Vec<u64>, id: u64) -> (r: Option<usize>)
    ensures
        match r { Some(i) => first_with_id(ids@, id) == Some(i as int), None => first_with_id(ids@, id) is None },
{
    let mut i: usize = 0;
    while i < ids.len()
        invariant
            i <= ids.len(),
            first_with_id(ids@.take(i as int), id) is None,
        decreases ids.len() - i,
    {
        proof {
            assert(ids@.take(i + 1).drop_last() =~= ids@.take(i as int));
        }
        if ids[i] == id {
            proof {
                assert(first_with_id(ids@.take(i + 1), id) == Some(i as int));
                lemma_first_with_id_prefix(ids@, id, i + 1);
            }
            return Some(i);
        }
        i = i + 1;
    }
    assert(ids@.take(ids.len() as int) =~= ids@);
    None
}

/// The ids of a list of children.
pub open spec fn ids_of<T>(c: Seq<(u64, T)>) -> Seq<u64> {
    c.map_values(|p: (u64, T)| p.0)
}

/// The ids of a list of children.
pub fn child_ids<T>(children: &Vec<(u64, T)>) -> (ids: Vec<u64>)
    ensures
        ids@ == ids_of(children@),
{
    let mut ids: Vec<u64> = Vec::new();
    let mut i: usize = 0;
    while i < children.len()
        invariant
            i <= children.len(),
            ids@ == ids_of(children@.take(i as int)),
        decreases children.len() - i,
    {
        ids.push(children[i].0);
        proof {
            assert(ids_of(children@.take(i + 1)) =~= ids_of(children@.take(i as int)).push(children@[i as int].0));
        }
        i = i + 1;
    }
    assert(children@.take(children.len() as int) =~= children@);
    ids
}

/// A list with the entries at `i` and `j` exchanged.
pub open spec fn swapped<A>(s: Seq<A>, i: int, j: int) -> Seq<A> {
    s.update(i, s[j]).update(j, s[i])
}

/// Exchanges the children at `i` and `j`.
pub fn swap_children<T>(children: &mut Vec<(u64, T)>, i: usize, j: usize)
    requires
        i < old(children)@.len(),
        j < old(children)@.len(),
    ensures
        final(children)@ == swapped(old(children)@, i as int, j as int),
{
    let ghost s = children@;
    if i == j {
        assert(swapped(s, i as int, j as int) =~= s);
        return;
    }
    let (lo, hi) = if i < j { (i, j) } else { (j, i) };
    let x = children.remove(hi);
    let y = children.remove(lo);
    children.insert(lo, x);
    children.insert(hi, y);
    assert(children@ =~= swapped(s, i as int, j as int));
}

/// The children after the swaps of a live update: for each listed id in
/// turn, the first child with that id is exchanged with the child at the
/// id's place in the list; `None` where a place is past the last child.
pub open spec fn reorder_run<T>(c: Seq<(u64, T)>, order: Seq<u64>) -> Option<Seq<(u64, T)>>
    decreases order.len(),
{
    if order.len() == 0 {
        Some(c)
    } else {
        match reorder_run(c, order.drop_last()) {
            None => None,
            Some(cur) => match first_with_id(ids_of(cur), order.last()) {
                None => Some(cur),
                Some(p) => if order.len() - 1 < cur.len() {
                    Some(swapped(cur, order.len() - 1, p))
                } else {
                    None
                },
            },
        }
    }
}

/// A list cut to its first `n` entries where it is longer.
pub open spec fn truncated<A>(s: Seq<A>, n: int) -> Seq<A> {
    if n <= s.len() { s.take(n) } else { s }
}

/// Puts the children in the order a live update listed their ids, and drops
/// the children past the end of the list.
pub fn reorder_children<T>(children: &mut Vec<(u64, T)>, order: &Vec<u64>)
    requires
        reorder_run(old(children)@, order@) is Some,
    ensures
        final(children)@ == truncated(reorder_run(old(children)@, order@)->0, order@.len() as int),
{
    let ghost start = children@;
    let mut k: usize = 0;
    while k < order.len()
        invariant
            k <= order@.len(),
            reorder_run(start, order@) is Some,
            reorder_run(start, order@.take(k as int)) == Some(children@),
        decreases order.len() - k,
    {
        proof {
            assert(order@.take(k + 1).drop_last() =~= order@.take(k as int));
            assert(order@.take(k + 1).last() == order@[k as int]);
            lemma_reorder_run_prefix(start, order@, k as int + 1);
        }
        let ids = child_ids(children);
        match position_of(&ids, order[k]) {
            Some(pos) => {
                proof {
                    lemma_first_with_id(ids@, order@[k as int]);
                }
                swap_children(children, k, pos);
            },
            None => {},
        }
        k = k + 1;
    }
    assert(order@.take(order.len() as int) =~= order@);
    children.truncate(order.len());
}

/// Items kept beside their ids, paired up place by place.
pub open spec fn zip_ids<T>(ids: Seq<u64>, items: Seq<T>) -> Seq<(u64, T)> {
    Seq::new(ids.len(), |i: int| (ids[i], items[i]))
}

/// The items of a list of children, without their ids.
pub open spec fn items_of<T>(c: Seq<(u64, T)>) -> Seq<T> {
    c.map_values(|p: (u64, T)| p.1)
}

/// Puts items kept beside their ids in the order a live update listed the
/// ids, moving each id with its item, and drops the ones past the end of the
/// list.
pub fn reorder_beside<T>(ids: &mut Vec<u64>, items: &mut Vec<T>, order: &Vec<u64>)
    requires
        old(ids)@.len() == old(items)@.len(),
        reorder_run(zip_ids(old(ids)@, old(items)@), order@) is Some,
    ensures
        final(ids)@ == ids_of(truncated(reorder_run(zip_ids(old(ids)@, old(items)@), order@)->0, order@.len() as int)),
        final(items)@ == items_of(truncated(reorder_run(zip_ids(old(ids)@, old(items)@), order@)->0, order@.len() as int)),
{
    let ghost zipped = zip_ids(ids@, items@);
    let mut rest: Vec<T> = Vec::new();
    std::mem::swap(&mut rest, items);
    let ghost orig = rest@;
    let mut pairs: Vec<(u64, T)> = Vec::new();
    let mut k: usize = 0;
    while k < ids.len()
        invariant
            ids@.len() == orig.len(),
            zipped == zip_ids(ids@, orig),
            k <= orig.len(),
            rest@ == orig.skip(k as int),
            pairs@ == zipped.take(k as int),
        decreases ids.len() - k,
    {
        let x = rest.remove(0);
        pairs.push((ids[k], x));
        proof {
            assert(pairs@ =~= zipped.take(k + 1));
            assert(rest@ =~= orig.skip(k + 1));
        }
        k = k + 1;
    }
    assert(zipped.take(orig.len() as int) =~= zipped);
    reorder_children(&mut pairs, order);
    let ghost done = pairs@;
    let mut new_ids: Vec<u64> = Vec::new();
    let mut new_items: Vec<T> = Vec::new();
    let mut j: usize = 0;
    let n = pairs.len();
    while j < n
        invariant
            n == done.len(),
            j <= n,
            pairs@ == done.skip(j as int),
            new_ids@ == ids_of(done.take(j as int)),
            new_items@ == items_of(done.take(j as int)),
        decreases n - j,
    {
        let (id, x) = pairs.remove(0);
        new_ids.push(id);
        new_items.push(x);
        proof {
            assert(new_ids@ =~= ids_of(done.take(j + 1)));
            assert(new_items@ =~= items_of(done.take(j + 1)));
            assert(pairs@ =~= done.skip(j + 1));
        }
        j = j + 1;
    }
    assert(done.take(n as int) =~= done);
    *ids = new_ids;
    *items = new_items;
}

proof fn lemma_reorder_run_prefix<T>(c: Seq<(u64, T)>, order: Seq<u64>, k: int)
    requires
        0 <= k <= order.len(),
        reorder_run(c, order) is Some,
    ensures
        reorder_run(c, order.take(k)) is Some,
    decreases order.len() - k,
{
    if k < order.len() {
        lemma_reorder_run_prefix(c, order, k + 1);
        assert(order.take(k + 1).drop_last() =~= order.take(k));
    } else {
        assert(order.take(k) =~= order);
    }
}

proof fn lemma_swapped_ids<T>(c: Seq<(u64, T)>, i: int, j: int)
    requires
        0 <= i < c.len(),
        0 <= j < c.len(),
    ensures
        ids_of(swapped(c, i, j)) == swapped(ids_of(c), i, j),
{
    assert(ids_of(swapped(c, i, j)) =~= swapped(ids_of(c), i, j));
}

/// Where the children's ids are distinct and a live update lists distinct
/// ids that the children have, the children end up exactly in the listed
/// order, each of them one of the children there were.
pub proof fn lemma_reorder_follows_order<T>(c: Seq<(u64, T)>, order: Seq<u64>)
    requires
        ids_of(c).no_duplicates(),
        order.no_duplicates(),
        forall|k: int| 0 <= k < order.len() ==> ids_of(c).contains(#[trigger] order[k]),
    ensures
        reorder_run(c, order) is Some,
        ids_of(truncated(reorder_run(c, order)->0, order.len() as int)) == order,
        forall|k: int| 0 <= k < order.len() ==> c.contains(#[trigger] truncated(reorder_run(c, order)->0, order.len() as int)[k]),
{
    lemma_reorder_steps(c, order, order.len() as int);
    assert(order.take(order.len() as int) =~= order);
    let cur = reorder_run(c, order)->0;
    let t = truncated(cur, order.len() as int);
    assert(t == cur.take(order.len() as int));
    assert(ids_of(t) =~= order);
}

proof fn lemma_reorder_steps<T>(c: Seq<(u64, T)>, order: Seq<u64>, k: int)
    requires
        0 <= k <= order.len(),
        ids_of(c).no_duplicates(),
        order.no_duplicates(),
        forall|q: int| 0 <= q < order.len() ==> ids_of(c).contains(#[trigger] order[q]),
    ensures
        reorder_run(c, order.take(k)) is Some,
        ({
            let cur = reorder_run(c, order.take(k))->0;
            &&& cur.len() == c.len()
            &&& k <= cur.len()
            &&& ids_of(cur).no_duplicates()
            &&& forall|x: u64| ids_of(cur).contains(x) <==> ids_of(c).contains(x)
            &&& forall|j: int| 0 <= j < k ==> #[trigger] cur[j].0 == order[j]
            &&& forall|j: int| 0 <= j < cur.len() ==> c.contains(#[trigger] cur[j])
        }),
    decreases k,
{
    if k == 0 {
        assert(order.take(0) =~= Seq::<u64>::empty());
    } else {
        lemma_reorder_steps(c, order, k - 1);
        let tk = order.take(k);
        assert(tk.drop_last() =~= order.take(k - 1));
        assert(tk.last() == order[k - 1]);
        let cur = reorder_run(c, order.take(k - 1))->0;
        let id = order[k - 1];
        let ids = ids_of(cur);
        assert(ids_of(c).contains(id));
        assert(ids.contains(id));
        lemma_first_with_id(ids, id);
        let p = first_with_id(ids, id)->0;
        assert(ids[p] == id);
        assert(p >= k - 1) by {
            if p < k - 1 {
                assert(cur[p].0 == order[p]);
                assert(ids[p] == cur[p].0);
                assert(order[p] == order[k - 1]);
            }
        }
        assert(k - 1 < cur.len());
        let next = swapped(cur, k - 1, p);
        assert(reorder_run(c, tk) == Some(next));
        lemma_swapped_ids(cur, k - 1, p);
        let nids = ids_of(next);
        assert(nids == swapped(ids, k - 1, p));
        assert forall|a: int, b: int| 0 <= a < nids.len() && 0 <= b < nids.len() && a != b implies nids[a] != nids[b] by {
            let sa = if a == k - 1 { p } else if a == p { k - 1 } else { a };
            let sb = if b == k - 1 { p } else if b == p { k - 1 } else { b };
            assert(nids[a] == ids[sa]);
            assert(nids[b] == ids[sb]);
        }
        assert forall|x: u64| nids.contains(x) <==> ids_of(c).contains(x) by {
            if nids.contains(x) {
                let a = choose|a: int| 0 <= a < nids.len() && nids[a] == x;
                let sa = if a == k - 1 { p } else if a == p { k - 1 } else { a };
                assert(ids[sa] == x);
                assert(ids.contains(x));
            }
            if ids_of(c).contains(x) {
                assert(ids.contains(x));
                let a = choose|a: int| 0 <= a < ids.len() && ids[a] == x;
                let sa = if a == k - 1 { p } else if a == p { k - 1 } else { a };
                assert(nids[sa] == x);
            }
        }
        assert forall|j: int| 0 <= j < k implies #[trigger] next[j].0 == order[j] by {
            if j < k - 1 {
                assert(next[j] == cur[j]);
            } else {
                assert(next[j] == cur[p]);
                assert(cur[p].0 == ids[p]);
            }
        }
        assert forall|j: int| 0 <= j < next.len() implies c.contains(#[trigger] next[j]) by {
            let sj = if j == k - 1 { p } else if j == p { k - 1 } else { j };
            assert(next[j] == cur[sj]);
        }
    }
}

/// Where a document is applied from.
#[derive(Clone, Copy, Debug, PartialEq, Eq)]
pub enum ApplyFrom {
    Animate,
    Over,
    NewFromDoc,
    UpdateFromDoc,
    Other,
}

/// What applying a value of a document to a container comes to.
#[derive(Clone, Copy, Debug, PartialEq, Eq)]
pub enum ApplyPlan {
    /// Apply the value to the child at this position.
    ApplyTo(usize),
    /// Make a new child under the value's id, at the end, and apply the value to it.
    PushNew,
    /// Skip the value.
    Skip,
    /// Report that the container has no field of that name, and skip the value.
    NoMatchingField,
}

/// What applying a value with id `id` to children with ids `ids` comes to.
pub open spec fn apply_plan(ids: Seq<u64>, from: ApplyFrom, is_instance_prop: bool, id: u64) -> ApplyPlan {
    match from {
        ApplyFrom::Animate | ApplyFrom::Over => match first_with_id(ids, id) {
            Some(i) => ApplyPlan::ApplyTo(i as usize),
            None => ApplyPlan::Skip,
        },
        ApplyFrom::NewFromDoc | ApplyFrom::UpdateFromDoc => if !is_instance_prop {
            ApplyPlan::NoMatchingField
        } else {
            match first_with_id(ids, id) {
                Some(i) => ApplyPlan::ApplyTo(i as usize),
                None => ApplyPlan::PushNew,
            }
        },
        ApplyFrom::Other => ApplyPlan::Skip,
    }
}

/// Plans the application of a value with id `id` to children with ids `ids`;
/// a live update of an instance also lists the id in `order`.
pub fn apply_value_instance(ids: &Vec<u64>, order: &mut Vec<u64>, from: ApplyFrom, is_instance_prop: bool, id: u64) -> (plan: ApplyPlan)
    ensures
        plan == apply_plan(ids@, from, is_instance_prop, id),
        final(order)@ == (if from == ApplyFrom::UpdateFromDoc && is_instance_prop { old(order)@.push(id) } else { old(order)@ }),
{
    match from {
        ApplyFrom::Animate | ApplyFrom::Over => match position_of(ids, id) {
            Some(i) => ApplyPlan::ApplyTo(i),
            None => ApplyPlan::Skip,
        },
        ApplyFrom::NewFromDoc | ApplyFrom::UpdateFromDoc => {
            if !is_instance_prop {
                ApplyPlan::NoMatchingField
            } else {
                if let ApplyFrom::UpdateFromDoc = from {
                    order.push(id);
                }
                match position_of(ids, id) {
                    Some(i) => ApplyPlan::ApplyTo(i),
                    None => ApplyPlan::PushNew,
                }
            }
        },
        ApplyFrom::Other => ApplyPlan::Skip,
    }
}

/// Before a live update is applied, the list of updated ids starts empty;
/// returns whether the search cache is to be dropped, which a live update asks.
pub fn before_apply(order: &mut Vec<u64>, from: ApplyFrom) -> (clear_cache: bool)
    ensures
        clear_cache == (from == ApplyFrom::UpdateFromDoc),
        final(order)@ == (if from == ApplyFrom::UpdateFromDoc { Seq::<u64>::empty() } else { old(order)@ }),
{
    if let ApplyFrom::UpdateFromDoc = from {
        order.clear();
        true
    } else {
        false
    }
}

/// The positions of the children drawn at once: the visible ones whose walk
/// is not deferred, in order.
pub open spec fn direct_draws(visible: Seq<bool>, defers: Seq<bool>, n: int) -> Seq<int>
    decreases n,
{
    if n <= 0 {
        Seq::empty()
    } else {
        direct_draws(visible, defers, n - 1) + (if visible[n - 1] && !defers[n - 1] { seq![n - 1] } else { Seq::empty() })
    }
}

/// The positions of the children drawn after the others: for each visible
/// child whose walk is deferred, in order, the first child with its id.
pub open spec fn deferred_draws(ids: Seq<u64>, visible: Seq<bool>, defers: Seq<bool>, n: int) -> Seq<int>
    decreases n,
{
    if n <= 0 {
        Seq::empty()
    } else {
        deferred_draws(ids, visible, defers, n - 1) + (if visible[n - 1] && defers[n - 1] {
            match first_with_id(ids, ids[n - 1]) {
                Some(p) => seq![p],
                None => Seq::empty(),
            }
        } else {
            Seq::empty()
        })
    }
}

/// The positions of the children in the order a container draws them: the
/// ones drawn at once, then the deferred ones.
pub open spec fn draw_plan(ids: Seq<u64>, visible: Seq<bool>, defers: Seq<bool>) -> Seq<int> {
    direct_draws(visible, defers, ids.len() as int) + deferred_draws(ids, visible, defers, ids.len() as int)
}

/// The positions of the children in the order a container draws them, given
/// which children are visible and which have their walk deferred.
pub fn draw_order(ids: &Vec<u64>, visible: &Vec<bool>, defers: &Vec<bool>) -> (r: Vec<usize>)
    requires
        visible@.len() == ids@.len(),
        defers@.len() == ids@.len(),
    ensures
        r@.len() == draw_plan(ids@, visible@, defers@).len(),
        forall|k: int| 0 <= k < r@.len() ==> r@[k] as int == draw_plan(ids@, visible@, defers@)[k],
{
    let n = ids.len();
    let mut direct: Vec<usize> = Vec::new();
    let mut deferred: Vec<usize> = Vec::new();
    let mut i: usize = 0;
    while i < n
        invariant
            n == ids@.len(),
            visible@.len() == n,
            defers@.len() == n,
            i <= n,
            direct@.len() == direct_draws(visible@, defers@, i as int).len(),
            forall|k: int| 0 <= k < direct@.len() ==> direct@[k] as int == direct_draws(visible@, defers@, i as int)[k],
            deferred@.len() == deferred_draws(ids@, visible@, defers@, i as int).len(),
            forall|k: int| 0 <= k < deferred@.len() ==> deferred@[k] as int == deferred_draws(ids@, visible@, defers@, i as int)[k],
        decreases n - i,
    {
        let ghost d0 = direct@;
        let ghost f0 = deferred@;
        if visible[i] {
            if defers[i] {
                match position_of(ids, ids[i]) {
                    Some(p) => {
                        deferred.push(p);
                    },
                    None => {},
                }
            } else {
                direct.push(i);
            }
        }
        proof {
            assert forall|k: int| 0 <= k < direct@.len() implies direct@[k] as int == direct_draws(visible@, defers@, i + 1)[k] by {
                if k < d0.len() {
                    assert(direct@[k] == d0[k]);
                }
            }
            assert forall|k: int| 0 <= k < deferred@.len() implies deferred@[k] as int == deferred_draws(ids@, visible@, defers@, i + 1)[k] by {
                if k < f0.len() {
                    assert(deferred@[k] == f0[k]);
                }
            }
        }
        i = i + 1;
    }
    let ghost d1 = direct@;
    direct.append(&mut deferred);
    proof {
        let plan = draw_plan(ids@, visible@, defers@);
        assert forall|k: int| 0 <= k < direct@.len() implies direct@[k] as int == plan[k] by {
            if k < d1.len() {
                assert(direct@[k] == d1[k]);
            }
        }
    }
    direct
}

proof fn lemma_direct_draws(visible: Seq<bool>, defers: Seq<bool>, n: int)
    requires
        0 <= n <= visible.len(),
        n <= defers.len(),
    ensures
        forall|k: int| 0 <= k < direct_draws(visible, defers, n).len() ==> {
            let i = #[trigger] direct_draws(visible, defers, n)[k];
            0 <= i < n && visible[i] && !defers[i]
        },
        forall|i: int| 0 <= i < n && visible[i] && !defers[i] ==> direct_draws(visible, defers, n).contains(i),
        direct_draws(visible, defers, n).no_duplicates(),
    decreases n,
{
    if n > 0 {
        lemma_direct_draws(visible, defers, n - 1);
        let d = direct_draws(visible, defers, n - 1);
        let dn = direct_draws(visible, defers, n);
        assert forall|k: int| 0 <= k < dn.len() implies {
            let i = #[trigger] dn[k];
            0 <= i < n && visible[i] && !defers[i]
        } by {
            if k < d.len() {
                assert(dn[k] == d[k]);
            }
        }
        assert forall|i: int| 0 <= i < n && visible[i] && !defers[i] implies dn.contains(i) by {
            if i < n - 1 {
                let k = choose|k: int| 0 <= k < d.len() && d[k] == i;
                assert(dn[k] == d[k]);
            } else {
                assert(dn[d.len() as int] == i);
            }
        }
        assert forall|a: int, b: int| 0 <= a < dn.len() && 0 <= b < dn.len() && a != b implies dn[a] != dn[b] by {
            if a < d.len() && b < d.len() {
                assert(dn[a] == d[a] && dn[b] == d[b]);
            } else if a < d.len() {
                assert(dn[a] == d[a]);
                assert(d[a] < n - 1);
            } else if b < d.len() {
                assert(dn[b] == d[b]);
                assert(d[b] < n - 1);
            }
        }
    }
}

proof fn lemma_deferred_draws(ids: Seq<u64>, visible: Seq<bool>, defers: Seq<bool>, n: int)
    requires
        0 <= n <= ids.len(),
        visible.len() == ids.len(),
        defers.len() == ids.len(),
        ids.no_duplicates(),
    ensures
        forall|k: int| 0 <= k < deferred_draws(ids, visible, defers, n).len() ==> {
            let i = #[trigger] deferred_draws(ids, visible, defers, n)[k];
            0 <= i < n && visible[i] && defers[i]
        },
        forall|i: int| 0 <= i < n && visible[i] && defers[i] ==> deferred_draws(ids, visible, defers, n).contains(i),
        deferred_draws(ids, visible, defers, n).no_duplicates(),
    decreases n,
{
    if n > 0 {
        lemma_deferred_draws(ids, visible, defers, n - 1);
        lemma_first_with_id(ids, ids[n - 1]);
        let p = first_with_id(ids, ids[n - 1]);
        assert(p == Some(n - 1)) by {
            assert(ids.contains(ids[n - 1]));
            let q = p->0;
            if q != n - 1 {
                assert(ids[q] == ids[n - 1]);
            }
        }
        let d = deferred_draws(ids, visible, defers, n - 1);
        let dn = deferred_draws(ids, visible, defers, n);
        assert forall|k: int| 0 <= k < dn.len() implies {
            let i = #[trigger] dn[k];
            0 <= i < n && visible[i] && defers[i]
        } by {
            if k < d.len() {
                assert(dn[k] == d[k]);
            }
        }
        assert forall|i: int| 0 <= i < n && visible[i] && defers[i] implies dn.contains(i) by {
            if i < n - 1 {
                let k = choose|k: int| 0 <= k < d.len() && d[k] == i;
                assert(dn[k] == d[k]);
            } else {
                assert(dn[d.len() as int] == i);
            }
        }
        assert forall|a: int, b: int| 0 <= a < dn.len() && 0 <= b < dn.len() && a != b implies dn[a] != dn[b] by {
            if a < d.len() && b < d.len() {
                assert(dn[a] == d[a] && dn[b] == d[b]);
            } else if a < d.len() {
                assert(dn[a] == d[a]);
                assert(d[a] < n - 1);
            } else if b < d.len() {
                assert(dn[b] == d[b]);
                assert(d[b] < n - 1);
            }
        }
    }
}

/// Where the children's ids are distinct, a container draws every visible
/// child exactly once and no invisible child at all.
pub proof fn lemma_draw_plan_visits_visible_once(ids: Seq<u64>, visible: Seq<bool>, defers: Seq<bool>)
    requires
        ids.no_duplicates(),
        visible.len() == ids.len(),
        defers.len() == ids.len(),
    ensures
        forall|i: int| 0 <= i < ids.len() ==> (draw_plan(ids, visible, defers).contains(i) <==> visible[i]),
        forall|k: int| 0 <= k < draw_plan(ids, visible, defers).len() ==> 0 <= #[trigger] draw_plan(ids, visible, defers)[k] < ids.len(),
        draw_plan(ids, visible, defers).no_duplicates(),
{
    let n = ids.len() as int;
    lemma_direct_draws(visible, defers, n);
    lemma_deferred_draws(ids, visible, defers, n);
    let a = direct_draws(visible, defers, n);
    let b = deferred_draws(ids, visible, defers, n);
    let plan = draw_plan(ids, visible, defers);
    assert(plan == a + b);
    assert forall|i: int| 0 <= i < ids.len() implies (plan.contains(i) <==> visible[i]) by {
        if visible[i] {
            if defers[i] {
                let k = choose|k: int| 0 <= k < b.len() && b[k] == i;
                assert(plan[a.len() + k] == i);
            } else {
                let k = choose|k: int| 0 <= k < a.len() && a[k] == i;
                assert(plan[k] == i);
            }
        }
        if plan.contains(i) {
            let k = choose|k: int| 0 <= k < plan.len() && plan[k] == i;
            if k < a.len() {
                assert(plan[k] == a[k]);
            } else {
                assert(plan[k] == b[k - a.len()]);
            }
        }
    }
    assert forall|k: int| 0 <= k < plan.len() implies 0 <= #[trigger] plan[k] < ids.len() by {
        if k < a.len() {
            assert(plan[k] == a[k]);
        } else {
            assert(plan[k] == b[k - a.len()]);
        }
    }
    assert forall|x: int, y: int| 0 <= x < plan.len() && 0 <= y < plan.len() && x != y implies plan[x] != plan[y] by {
        if x < a.len() && y < a.len() {
            assert(plan[x] == a[x] && plan[y] == a[y]);
        } else if x >= a.len() && y >= a.len() {
            assert(plan[x] == b[x - a.len()] && plan[y] == b[y - a.len()]);
        } else if x < a.len() {
            assert(plan[x] == a[x] && plan[y] == b[y - a.len()]);
            assert(!defers[a[x]]);
            assert(defers[b[y - a.len()]]);
        } else {
            assert(plan[y] == a[y] && plan[x] == b[x - a.len()]);
            assert(!defers[a[y]]);
            assert(defers[b[x - a.len()]]);
        }
    }
}

/// Every position a container draws is the position of one of its children.
pub proof fn lemma_draw_plan_in_range(ids: Seq<u64>, visible: Seq<bool>, defers: Seq<bool>)
    requires
        visible.len() == ids.len(),
        defers.len() == ids.len(),
    ensures
        forall|k: int| 0 <= k < draw_plan(ids, visible, defers).len() ==> 0 <= #[trigger] draw_plan(ids, visible, defers)[k] < ids.len(),
{
    let n = ids.len() as int;
    lemma_direct_draws(visible, defers, n);
    lemma_deferred_in_range(ids, visible, defers, n);
    let a = direct_draws(visible, defers, n);
    let b = deferred_draws(ids, visible, defers, n);
    let plan = draw_plan(ids, visible, defers);
    assert forall|k: int| 0 <= k < plan.len() implies 0 <= #[trigger] plan[k] < ids.len() by {
        if k < a.len() {
            assert(plan[k] == a[k]);
        } else {
            assert(plan[k] == b[k - a.len()]);
        }
    }
}

proof fn lemma_deferred_in_range(ids: Seq<u64>, visible: Seq<bool>, defers: Seq<bool>, n: int)
    requires
        0 <= n <= ids.len(),
        visible.len() == ids.len(),
        defers.len() == ids.len(),
    ensures
        forall|k: int| 0 <= k < deferred_draws(ids, visible, defers, n).len() ==>
            0 <= #[trigger] deferred_draws(ids, visible, defers, n)[k] < ids.len(),
    decreases n,
{
    if n > 0 {
        lemma_deferred_in_range(ids, visible, defers, n - 1);
        lemma_first_with_id(ids, ids[n - 1]);
        let d = deferred_draws(ids, visible, defers, n - 1);
        let dn = deferred_draws(ids, visible, defers, n);
        assert forall|k: int| 0 <= k < dn.len() implies 0 <= #[trigger] dn[k] < ids.len() by {
            if k < d.len() {
                assert(dn[k] == d[k]);
            }
        }
    }
}

} // verus!
