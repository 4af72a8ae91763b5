//! Trees of branches and leaves: naming by index chain, the actives a tree
//! reports, how a list of actives is spread over the tree, and how the list
//! itself changes when an item is toggled.

use vstd::prelude::*;
use vstd::string::*;
use crate::text::{chain_name, decimal, join_chain, lemma_decimal_nonempty};

verus! {

broadcast use vstd::std_specs::vec::group_vec_axioms;

/// One item of a tree: a branch with items below it, or a leaf.
pub enum TreeItemMode {
    Branch { active: bool, value: String, items: Vec<TreeItemMode> },
    Leaf { value: String, active: bool },
}

impl TreeItemMode {
    pub open spec fn spec_value(self) -> Seq<char> {
        match self {
            TreeItemMode::Branch { value, .. } => value@,
            TreeItemMode::Leaf { value, .. } => value@,
        }
    }

    pub open spec fn spec_active(self) -> bool {
        match self {
            TreeItemMode::Branch { active, .. } => active,
            TreeItemMode::Leaf { active, .. } => active,
        }
    }

    pub open spec fn spec_items(self) -> Seq<TreeItemMode> {
        match self {
            TreeItemMode::Branch { items, .. } => items@,
            TreeItemMode::Leaf { .. } => Seq::empty(),
        }
    }

    pub open spec fn is_branch(self) -> bool {
        self is Branch
    }
}

/// The value an item ends with: its own, or its index chain where it has none.
pub open spec fn named_value(old: Seq<char>, chain: Seq<usize>) -> Seq<char> {
    if old.len() == 0 { chain_name(chain) } else { old }
}

/// Whether `a` and `b` are the same item but for the value that naming gives.
pub open spec fn renamed(a: TreeItemMode, b: TreeItemMode, chain: Seq<usize>) -> bool
    decreases a,
{
    match a {
        TreeItemMode::Branch { active, value, items } => {
            &&& b is Branch
            &&& b.spec_active() == active
            &&& b.spec_value() == named_value(value@, chain)
            &&& b.spec_items().len() == items@.len()
            &&& forall|i: int| #![trigger items@[i]] 0 <= i < items@.len() ==>
                    renamed(items@[i], b.spec_items()[i], chain.push(i as usize))
        },
        TreeItemMode::Leaf { value, active } => {
            &&& b is Leaf
            &&& b.spec_active() == active
            &&& b.spec_value() == named_value(value@, chain)
        },
    }
}


/// Whether there is a leaf at or below an item.
pub open spec fn has_leaf(n: TreeItemMode) -> bool
    decreases n,
{
    match n {
        TreeItemMode::Branch { items, .. } =>
            exists|i: int| #![trigger items@[i]] 0 <= i < items@.len() && has_leaf(items@[i]),
        TreeItemMode::Leaf { .. } => true,
    }
}

/// Whether every leaf at or below an item is active.
pub open spec fn leaves_active(n: TreeItemMode) -> bool
    decreases n,
{
    match n {
        TreeItemMode::Branch { items, .. } =>
            forall|i: int| #![trigger items@[i]] 0 <= i < items@.len() ==> leaves_active(items@[i]),
        TreeItemMode::Leaf { active, .. } => active,
    }
}

/// Whether `b` is `a` after `actives` has been spread over it: a leaf is active
/// exactly when its value is listed; a branch exactly when it has a leaf
/// below it and every leaf below it is active.
pub open spec fn applied(a: TreeItemMode, b: TreeItemMode, chain: Seq<usize>, actives: Seq<Seq<char>>) -> bool
    decreases a,
{
    match a {
        TreeItemMode::Branch { active, value, items } => {
            &&& b is Branch
            &&& b.spec_value() == named_value(value@, chain)
            &&& b.spec_items().len() == items@.len()
            &&& forall|i: int| #![trigger items@[i]] 0 <= i < items@.len() ==>
                    applied(items@[i], b.spec_items()[i], chain.push(i as usize), actives)
            &&& b.spec_active() == (has_leaf(b) && leaves_active(b))
        },
        TreeItemMode::Leaf { value, active } => {
            &&& b is Leaf
            &&& b.spec_value() == named_value(value@, chain)
            &&& b.spec_active() == actives.contains(b.spec_value())
        },
    }
}

impl TreeItemMode {
    /// Whether the item is active.
    pub fn is_active(&self) -> (r: bool)
        ensures
            r == self.spec_active(),
    {
        match self {
            TreeItemMode::Branch { active, .. } => *active,
            TreeItemMode::Leaf { active, .. } => *active,
        }
    }
}

/// The value an item keeps: its own, or its joined index chain where it has none.
pub fn generate_value(value: String, chain: &Vec<usize>) -> (r: String)
    ensures
        r@ == named_value(value@, chain@),
{
    if value.as_str().unicode_len() == 0 {
        join_chain(chain)
    } else {
        value
    }
}

/// Whether `list` holds a string equal to `s`.
pub fn contains_value(list: &Vec<String>, s: &String) -> (r: bool)
    ensures
        r == list.deep_view().contains(s@),
{
    let mut i: usize = 0;
    while i < list.len()
        invariant
            i <= list.len(),
            forall|j: int| 0 <= j < i ==> list.deep_view()[j] != s@,
        decreases list.len() - i,
    {
        if list[i] == *s {
            assert(list.deep_view()[i as int] == s@);
            return true;
        }
        i = i + 1;
    }
    proof {
        if list.deep_view().contains(s@) {
            let k = choose|k: int| 0 <= k < list.deep_view().len() && list.deep_view()[k] == s@;
            assert(list.deep_view()[k] != s@);
        }
    }
    false
}

fn chain_child(chain: &Vec<usize>, i: usize) -> (r: Vec<usize>)
    ensures
        r@ == chain@.push(i),
{
    let mut r: Vec<usize> = Vec::new();
    let mut k: usize = 0;
    while k < chain.len()
        invariant
            k <= chain.len(),
            r@ == chain@.take(k as int),
        decreases chain.len() - k,
    {
        r.push(chain[k]);
        proof { assert(chain@.take(k + 1) =~= chain@.take(k as int).push(chain@[k as int])); }
        k = k + 1;
    }
    r.push(i);
    proof { assert(chain@.take(chain.len() as int) =~= chain@); }
    r
}

/// Spreads a list of actives over one item and everything below it, naming
/// items that have no value by their index chain.
pub fn apply_actives_item(item: TreeItemMode, chain: &Vec<usize>, actives: &Vec<String>) -> (r: TreeItemMode)
    ensures
        applied(item, r, chain@, actives.deep_view()),
{
    apply_item(item, chain, actives).0
}

/// Spreads a list of actives over one item, and tells whether the result has
/// a leaf below it and whether all its leaves are active.
fn apply_item(item: TreeItemMode, chain: &Vec<usize>, actives: &Vec<String>) -> (r: (TreeItemMode, bool, bool))
    ensures
        applied(item, r.0, chain@, actives.deep_view()),
        r.1 == has_leaf(r.0),
        r.2 == leaves_active(r.0),
    decreases item,
{
    let ghost whole = item;
    match item {
        TreeItemMode::Leaf { value, active: _ } => {
            let value = generate_value(value, chain);
            let active = contains_value(actives, &value);
            (TreeItemMode::Leaf { value, active }, true, active)
        },
        TreeItemMode::Branch { active: _, value, items } => {
            let value = generate_value(value, chain);
            let ghost orig = items@;
            let n = items.len();
            let mut rest = items;
            let mut out: Vec<TreeItemMode> = Vec::new();
            let mut has = false;
            let mut all = true;
            let mut i: usize = 0;
            while i < n
                invariant
                    n == orig.len(),
                    i <= n,
                    whole == item,
                    whole matches TreeItemMode::Branch { items: its, .. } && its@ == orig,
                    rest@ == orig.subrange(i as int, n as int),
                    out@.len() == i,
                    forall|j: int| #![trigger orig[j]] 0 <= j < i ==>
                        applied(orig[j], out@[j], chain@.push(j as usize), actives.deep_view()),
                    has == (exists|j: int| 0 <= j < i && has_leaf(#[trigger] out@[j])),
                    all == (forall|j: int| 0 <= j < i ==> leaves_active(#[trigger] out@[j])),
                decreases n - i,
            {
                let it = rest.remove(0);
                assert(it == orig[i as int]);
                let sub = chain_child(chain, i);
                proof {
                    let its = whole->items;
                    assert(its@ == orig);
                    assert(decreases_to!(whole => its));
                    assert(decreases_to!(its => its@));
                    assert(decreases_to!(its@ => its@[i as int]));
                }
                let (r, rh, ra) = apply_item(it, &sub, actives);
                let ghost before = out@;
                out.push(r);
                proof {
                    assert(rest@ =~= orig.subrange(i + 1, n as int));
                    assert forall|j: int| 0 <= j < i implies out@[j] == before[j] by {}
                    assert(out@[i as int] == r);
                    if has {
                        let k = choose|k: int| 0 <= k < i && has_leaf(#[trigger] before[k]);
                        assert(out@[k] == before[k]);
                    } else if !rh {
                        assert forall|j: int| 0 <= j < i + 1 implies !has_leaf(#[trigger] out@[j]) by {
                            if j < i {
                                assert(out@[j] == before[j]);
                            }
                        }
                    }
                    if all && ra {
                        assert forall|j: int| 0 <= j < i + 1 implies leaves_active(#[trigger] out@[j]) by {
                            if j < i {
                                assert(out@[j] == before[j]);
                            }
                        }
                    } else if !all {
                        let k = choose|k: int| 0 <= k < i && !leaves_active(#[trigger] before[k]);
                        assert(out@[k] == before[k]);
                    }
                }
                has = has || rh;
                all = all && ra;
                i = i + 1;
            }
            let r = TreeItemMode::Branch { active: has && all, value, items: out };
            proof {
                assert(r.spec_items() == out@);
                if has_leaf(r) {
                    let k = choose|k: int| 0 <= k < out@.len() && has_leaf(#[trigger] out@[k]);
                }
                if !leaves_active(r) {
                    let k = choose|k: int| 0 <= k < out@.len() && !leaves_active(#[trigger] out@[k]);
                }
            }
            (r, has, all)
        },
    }
}

/// Whether each item of `b` is the item of `a` at the same place after
/// `actives` has been spread over it, each top item named by its own index.
pub open spec fn applied_list(a: Seq<TreeItemMode>, b: Seq<TreeItemMode>, actives: Seq<Seq<char>>) -> bool {
    &&& b.len() == a.len()
    &&& forall|i: int| #![trigger a[i]] 0 <= i < a.len() ==> applied(a[i], b[i], seq![i as usize], actives)
}

/// Whether each item of `b` is the item of `a` at the same place, named.
pub open spec fn renamed_list(a: Seq<TreeItemMode>, b: Seq<TreeItemMode>) -> bool {
    &&& b.len() == a.len()
    &&& forall|i: int| #![trigger a[i]] 0 <= i < a.len() ==> renamed(a[i], b[i], seq![i as usize])
}

/// The values of the active leaves at or below a tree item, in the order a
/// walk that visits an item before the items below it meets them; a branch
/// is no item that can be active.
pub open spec fn item_actives(n: TreeItemMode) -> Seq<Seq<char>>
    decreases n,
{
    match n {
        TreeItemMode::Branch { active, value, items } => {
            items_actives(items@)
        },
        TreeItemMode::Leaf { value, active } => {
            if active { seq![value@] } else { Seq::empty() }
        },
    }
}

/// The values of the active leaves of a list of items, in walk order.
pub open spec fn items_actives(items: Seq<TreeItemMode>) -> Seq<Seq<char>>
    decreases items,
{
    if items.len() == 0 {
        Seq::empty()
    } else {
        items_actives(items.drop_last()) + item_actives(items.last())
    }
}

proof fn lemma_items_actives_push(items: Seq<TreeItemMode>, x: TreeItemMode)
    ensures
        items_actives(items.push(x)) == items_actives(items) + item_actives(x),
{
    assert(items.push(x).drop_last() =~= items);
}

/// Spreads a list of actives over the top items of a tree.
pub fn apply_actives(items: Vec<TreeItemMode>, actives: &Vec<String>) -> (r: Vec<TreeItemMode>)
    ensures
        applied_list(items@, r@, actives.deep_view()),
{
    let ghost orig = items@;
    let n = items.len();
    let mut rest = items;
    let mut out: Vec<TreeItemMode> = Vec::new();
    let mut i: usize = 0;
    while i < n
        invariant
            n == orig.len(),
            i <= n,
            rest@ == orig.subrange(i as int, n as int),
            out@.len() == i,
            forall|j: int| #![trigger orig[j]] 0 <= j < i ==>
                applied(orig[j], out@[j], seq![j as usize], actives.deep_view()),
        decreases n - i,
    {
        let it = rest.remove(0);
        let mut chain: Vec<usize> = Vec::new();
        chain.push(i);
        let r = apply_actives_item(it, &chain, actives);
        let ghost before = out@;
        out.push(r);
        proof {
            assert(rest@ =~= orig.subrange(i + 1, n as int));
            assert(chain@ =~= seq![i]);
            assert forall|j: int| 0 <= j < i implies out@[j] == before[j] by {}
        }
        i = i + 1;
    }
    out
}

/// Names one item and everything below it, and appends the values of the
/// active leaves to `found` in walk order.
pub fn find_actives_item(item: TreeItemMode, chain: &Vec<usize>, found: &mut Vec<String>) -> (r: TreeItemMode)
    ensures
        renamed(item, r, chain@),
        final(found).deep_view() == old(found).deep_view() + item_actives(r),
    decreases item,
{
    let ghost whole = item;
    match item {
        TreeItemMode::Leaf { value, active } => {
            let value = generate_value(value, chain);
            let ghost start = found.deep_view();
            if active {
                found.push(value.clone());
            }
            let r = TreeItemMode::Leaf { value, active };
            proof {
                if active {
                    assert(found.deep_view() =~= start + seq![r.spec_value()]);
                } else {
                    assert(found.deep_view() =~= start + Seq::<Seq<char>>::empty());
                }
            }
            r
        },
        TreeItemMode::Branch { active, value, items } => {
            let value = generate_value(value, chain);
            let ghost start = found.deep_view();
            let ghost head = found.deep_view();
            let ghost orig = items@;
            let n = items.len();
            let mut rest = items;
            let mut out: Vec<TreeItemMode> = Vec::new();
            let mut i: usize = 0;
            while i < n
                invariant
                    n == orig.len(),
                    i <= n,
                    whole == item,
                    whole matches TreeItemMode::Branch { items: its, .. } && its@ == orig,
                    rest@ == orig.subrange(i as int, n as int),
                    out@.len() == i,
                    forall|j: int| #![trigger orig[j]] 0 <= j < i ==>
                        renamed(orig[j], out@[j], chain@.push(j as usize)),
                    found.deep_view() == head + items_actives(out@),
                decreases n - i,
            {
                let it = rest.remove(0);
                assert(it == orig[i as int]);
                let sub = chain_child(chain, i);
                proof {
                    let its = whole->items;
                    assert(decreases_to!(whole => its));
                    assert(decreases_to!(its => its@));
                    assert(decreases_to!(its@ => its@[i as int]));
                }
                let r = find_actives_item(it, &sub, found);
                let ghost before = out@;
                out.push(r);
                proof {
                    assert(rest@ =~= orig.subrange(i + 1, n as int));
                    assert forall|j: int| 0 <= j < i implies out@[j] == before[j] by {}
                    lemma_items_actives_push(before, r);
                    assert(out@ == before.push(r));
                }
                i = i + 1;
            }
            let r = TreeItemMode::Branch { active, value, items: out };
            proof {
                assert(r.spec_items() == out@);
                assert(found.deep_view() =~= start + item_actives(r));
            }
            r
        },
    }
}

/// Names the top items of a tree and everything below them, and lists the
/// values of the active items in walk order.
pub fn find_actives(items: Vec<TreeItemMode>) -> (r: (Vec<TreeItemMode>, Vec<String>))
    ensures
        renamed_list(items@, r.0@),
        r.1.deep_view() == items_actives(r.0@),
{
    let ghost orig = items@;
    let n = items.len();
    let mut rest = items;
    let mut out: Vec<TreeItemMode> = Vec::new();
    let mut found: Vec<String> = Vec::new();
    let mut i: usize = 0;
    proof { assert(found.deep_view() =~= items_actives(out@)); }
    while i < n
        invariant
            n == orig.len(),
            i <= n,
            rest@ == orig.subrange(i as int, n as int),
            out@.len() == i,
            forall|j: int| #![trigger orig[j]] 0 <= j < i ==> renamed(orig[j], out@[j], seq![j as usize]),
            found.deep_view() == items_actives(out@),
        decreases n - i,
    {
        let it = rest.remove(0);
        let mut chain: Vec<usize> = Vec::new();
        chain.push(i);
        let r = find_actives_item(it, &chain, &mut found);
        let ghost before = out@;
        out.push(r);
        proof {
            assert(rest@ =~= orig.subrange(i + 1, n as int));
            assert(chain@ =~= seq![i]);
            assert forall|j: int| 0 <= j < i implies out@[j] == before[j] by {}
            lemma_items_actives_push(before, r);
            assert(out@ == before.push(r));
        }
        i = i + 1;
    }
    (out, found)
}


/// A list with every entry equal to `v` left out, the others kept in order.
pub open spec fn without(list: Seq<Seq<char>>, v: Seq<char>) -> Seq<Seq<char>>
    decreases list.len(),
{
    if list.len() == 0 {
        Seq::empty()
    } else if list.last() == v {
        without(list.drop_last(), v)
    } else {
        without(list.drop_last(), v).push(list.last())
    }
}

/// The list of actives after an item with value `v` turned active or not:
/// added at the end when it turned active and was not listed, every copy
/// removed when it turned inactive.
pub open spec fn toggled_actives(list: Seq<Seq<char>>, v: Seq<char>, active: bool) -> Seq<Seq<char>> {
    if active {
        if list.contains(v) { list } else { list.push(v) }
    } else {
        without(list, v)
    }
}

/// Updates the list of actives after the item with value `value` turned
/// active (`active`) or inactive.
pub fn update_actives(actives: &mut Vec<String>, value: &String, active: bool)
    ensures
        final(actives).deep_view() == toggled_actives(old(actives).deep_view(), value@, active),
{
    if active {
        if !contains_value(actives, value) {
            let ghost before = actives.deep_view();
            actives.push(value.clone());
            assert(actives.deep_view() =~= before.push(value@));
        }
    } else {
        let ghost orig = actives.deep_view();
        let mut kept: Vec<String> = Vec::new();
        let mut i: usize = 0;
        while i < actives.len()
            invariant
                i <= actives.len(),
                actives.deep_view() == orig,
                kept.deep_view() == without(orig.take(i as int), value@),
            decreases actives.len() - i,
        {
            let ghost before = kept.deep_view();
            proof {
                let t = orig.take(i + 1);
                assert(t.drop_last() =~= orig.take(i as int));
                assert(t.last() == orig[i as int]);
            }
            if actives[i] != *value {
                kept.push(actives[i].clone());
                assert(kept.deep_view() =~= before.push(orig[i as int]));
            }
            i = i + 1;
        }
        assert(orig.take(actives.len() as int) =~= orig);
        *actives = kept;
    }
}

/// The tree component: its items, the values reported active, and whether
/// its body is shown.
pub struct GTree {
    pub visible: bool,
    pub body_visible: bool,
    pub event_open: bool,
    /// Whether the tree has been drawn into a scope, which its events need.
    pub scoped: bool,
    /// The values of the active items: leaves, and branches all of whose
    /// leaves are active.
    pub actives: Vec<String>,
    /// The items of the body.
    pub items: Vec<TreeItemMode>,
    /// A copy of the items as the tree last took stock of them.
    pub item_modes: Vec<TreeItemMode>,
}

/// What one item of a tree reported in an event: a branch the change it
/// sent (whether it is open now, and its value) and the reports of the items
/// below it; a leaf the click it sent (whether it is active now, and its value).
pub enum TreeReport {
    Branch { changed: Option<(bool, String)>, items: Vec<TreeReport> },
    Leaf { clicked: Option<(bool, String)> },
}

/// The report a tree acts on: a branch's change or a leaf's click.
#[derive(Clone, Debug, PartialEq, Eq)]
pub enum TreeActionType {
    Branch(bool, String),
    Leaf(bool, String),
}

/// The list of actives a tree reports after it changed.
pub struct TreeChanged {
    pub actives: Vec<String>,
}

/// The report a tree acts on after one item, given the one it took from
/// the items before: a branch's change takes the place of every earlier
/// report, a leaf's click counts only where no report came before it.
pub open spec fn pick_item(acc: Option<TreeActionType>, r: TreeReport) -> Option<TreeActionType>
    decreases r,
{
    match r {
        TreeReport::Branch { changed, items } => {
            let here = match changed {
                Some((a, v)) => Some(TreeActionType::Branch(a, v)),
                None => acc,
            };
            pick_items(here, items@)
        },
        TreeReport::Leaf { clicked } => match clicked {
            Some((a, v)) => if acc is None { Some(TreeActionType::Leaf(a, v)) } else { acc },
            None => acc,
        },
    }
}

/// The report a tree acts on after a list of items, walked in order with
/// each branch before the items below it.
pub open spec fn pick_items(acc: Option<TreeActionType>, items: Seq<TreeReport>) -> Option<TreeActionType>
    decreases items,
{
    if items.len() == 0 {
        acc
    } else {
        pick_item(pick_items(acc, items.drop_last()), items.last())
    }
}

/// Whether two trees agree on their visibility, their body's visibility and
/// whether their events reach their listeners.
pub open spec fn tree_same_flags(a: GTree, b: GTree) -> bool {
    &&& a.visible == b.visible
    &&& a.body_visible == b.body_visible
    &&& a.event_open == b.event_open
    &&& a.scoped == b.scoped
}

impl GTree {
    /// Takes stock of the items of a shown body: names each item without a
    /// value by its index chain, keeps a copy of the items, and takes over the
    /// value of the first active leaf in walk order as its list of actives
    /// (only the first where there are several; where there is none, the list
    /// is left as it is). Returns that value. A hidden body is not looked at,
    /// and the copy of the items is emptied.
    pub fn find_actives(&mut self) -> (first: Option<String>)
        ensures
            tree_same_flags(*old(self), *final(self)),
            old(self).body_visible ==> renamed_list(old(self).items@, final(self).items@)
                && same_items(final(self).items@, final(self).item_modes@),
            old(self).body_visible ==> match first {
                Some(v) => items_actives(final(self).items@).len() > 0 && v@ == items_actives(final(self).items@)[0]
                    && final(self).actives.deep_view() == seq![v@],
                None => items_actives(final(self).items@).len() == 0 && final(self).actives == old(self).actives,
            },
            !old(self).body_visible ==> final(self).items == old(self).items && first is None
                && final(self).actives == old(self).actives && final(self).item_modes@.len() == 0,
    {
        self.item_modes = Vec::new();
        if self.body_visible {
            let mut items: Vec<TreeItemMode> = Vec::new();
            std::mem::swap(&mut items, &mut self.items);
            let (named, mut found) = find_actives(items);
            self.items = named;
            self.item_modes = copy_items(&self.items);
            if found.len() > 0 {
                let ghost all = found.deep_view();
                let v = found.remove(0);
                assert(v@ == all[0]);
                let mut list: Vec<String> = Vec::new();
                list.push(v.clone());
                proof {
                    assert(list.deep_view() =~= seq![v@]);
                }
                self.actives = list;
                Some(v)
            } else {
                None
            }
        } else {
            None
        }
    }

    /// Replaces the list of actives, spreads it over the items and keeps a
    /// copy of the items that result.
    pub fn set_actives(&mut self, actives: Vec<String>)
        ensures
            final(self).actives == actives,
            applied_list(old(self).items@, final(self).items@, actives.deep_view()),
            same_items(final(self).items@, final(self).item_modes@),
            tree_same_flags(*old(self), *final(self)),
    {
        let mut items: Vec<TreeItemMode> = Vec::new();
        std::mem::swap(&mut items, &mut self.items);
        self.items = apply_actives(items, &actives);
        self.item_modes = copy_items(&self.items);
        self.actives = actives;
    }

    /// Spreads the current list of actives over the items; the copy of the
    /// items is left as it is.
    pub fn set_target_active(&mut self)
        ensures
            final(self).actives == old(self).actives,
            applied_list(old(self).items@, final(self).items@, old(self).actives.deep_view()),
            final(self).item_modes == old(self).item_modes,
            tree_same_flags(*old(self), *final(self)),
    {
        let mut items: Vec<TreeItemMode> = Vec::new();
        std::mem::swap(&mut items, &mut self.items);
        self.items = apply_actives(items, &self.actives);
    }

    /// An item with value `value` reported that it turned active or not: the
    /// list of actives follows it and is spread over the items again. Returns
    /// the change to report, where the tree's events reach its listeners.
    pub fn item_toggled(&mut self, value: &String, active: bool) -> (changed: Option<TreeChanged>)
        ensures
            final(self).actives.deep_view() == toggled_actives(old(self).actives.deep_view(), value@, active),
            applied_list(old(self).items@, final(self).items@, final(self).actives.deep_view()),
            final(self).item_modes == old(self).item_modes,
            tree_same_flags(*old(self), *final(self)),
            match changed {
                Some(c) => old(self).event_open && old(self).scoped && c.actives.deep_view() == final(self).actives.deep_view(),
                None => !(old(self).event_open && old(self).scoped),
            },
    {
        update_actives(&mut self.actives, value, active);
        self.set_target_active();
        if self.event_open && self.scoped {
            Some(TreeChanged { actives: clone_strings(&self.actives) })
        } else {
            None
        }
    }

    /// Handles the reports of the items of a visible tree with a shown body;
    /// with no report (the body sent nothing) nothing happens. Otherwise the
    /// tree names its items and keeps a copy of them, then the report it acts
    /// on (see `pick_items`) turns the reported value active or not in its
    /// list of actives, which is spread over the items again. Returns the
    /// change to report.
    pub fn handle_event(&mut self, reports: &Vec<TreeReport>) -> (changed: Option<TreeChanged>)
        ensures
            tree_same_flags(*old(self), *final(self)),
            !(old(self).visible && old(self).body_visible) || reports@.len() == 0 ==>
                changed is None && final(self).actives == old(self).actives && final(self).items == old(self).items
                && final(self).item_modes == old(self).item_modes,
            old(self).visible && old(self).body_visible && reports@.len() > 0 ==> {
                &&& renamed_list(old(self).items@, final(self).item_modes@)
                &&& match pick_items(None, reports@) {
                    Some(TreeActionType::Branch(a, v)) | Some(TreeActionType::Leaf(a, v)) => {
                        &&& final(self).actives.deep_view() == toggled_actives(old(self).actives.deep_view(), v@, a)
                        &&& applied_list(final(self).item_modes@, final(self).items@, final(self).actives.deep_view())
                        &&& match changed {
                            Some(c) => old(self).event_open && old(self).scoped && c.actives.deep_view() == final(self).actives.deep_view(),
                            None => !(old(self).event_open && old(self).scoped),
                        }
                    },
                    None => {
                        &&& changed is None
                        &&& final(self).actives == old(self).actives
                        &&& same_items(final(self).items@, final(self).item_modes@)
                    },
                }
            },
    {
        if !self.visible || !self.body_visible || reports.len() == 0 {
            return None;
        }
        let ghost orig = self.items@;
        let mut items: Vec<TreeItemMode> = Vec::new();
        std::mem::swap(&mut items, &mut self.items);
        let (named, _found) = find_actives(items);
        self.items = named;
        self.item_modes = copy_items(&self.items);
        let ghost mid = self.items@;
        let ghost copy = self.item_modes@;
        proof {
            assert forall|i: int| #![trigger orig[i]] 0 <= i < orig.len() implies renamed(orig[i], copy[i], seq![i as usize]) by {
                assert(renamed(orig[i], mid[i], seq![i as usize]));
                assert(same_item(mid[i], copy[i]));
                lemma_renamed_same(orig[i], mid[i], copy[i], seq![i as usize]);
            }
        }
        match pick_reports(None, reports) {
            Some(TreeActionType::Branch(a, v)) | Some(TreeActionType::Leaf(a, v)) => {
                let changed = self.item_toggled(&v, a);
                proof {
                    let fin = self.items@;
                    let acts = self.actives.deep_view();
                    assert forall|i: int| #![trigger copy[i]] 0 <= i < copy.len() implies applied(copy[i], fin[i], seq![i as usize], acts) by {
                        assert(applied(mid[i], fin[i], seq![i as usize], acts));
                        assert(same_item(mid[i], copy[i]));
                        lemma_same_applied(mid[i], copy[i], fin[i], seq![i as usize], acts);
                    }
                }
                changed
            },
            None => None,
        }
    }

    /// Sets the tree up after its document was applied: without actives of
    /// its own it takes stock of its items, taking over the first active leaf
    /// it finds as its list of actives; otherwise it spreads its actives over
    /// its items.
    pub fn after_apply(&mut self)
        ensures
            tree_same_flags(*old(self), *final(self)),
            old(self).actives@.len() == 0 && old(self).body_visible ==> {
                &&& renamed_list(old(self).items@, final(self).items@)
                &&& same_items(final(self).items@, final(self).item_modes@)
                &&& final(self).actives.deep_view() == (if items_actives(final(self).items@).len() > 0 {
                    seq![items_actives(final(self).items@)[0]]
                } else {
                    Seq::<Seq<char>>::empty()
                })
            },
            old(self).actives@.len() == 0 && !old(self).body_visible ==> final(self).items == old(self).items
                && final(self).actives == old(self).actives && final(self).item_modes@.len() == 0,
            old(self).actives@.len() > 0 ==> applied_list(old(self).items@, final(self).items@, old(self).actives.deep_view())
                && final(self).actives.deep_view() == old(self).actives.deep_view()
                && same_items(final(self).items@, final(self).item_modes@),
    {
        if self.actives.len() == 0 {
            let ghost before = self.actives;
            let _ = self.find_actives();
            proof {
                if items_actives(self.items@).len() == 0 && self.body_visible {
                    assert(self.actives == before);
                    assert(before@.len() == 0);
                    assert(self.actives.deep_view() =~= Seq::<Seq<char>>::empty());
                }
            }
        } else {
            let actives = clone_strings(&self.actives);
            self.set_actives(actives);
        }
    }
}


/// A copy of a list of strings.
pub fn clone_strings(list: &Vec<String>) -> (r: Vec<String>)
    ensures
        r.deep_view() == list.deep_view(),
        r@ == list@,
{
    let mut r: Vec<String> = Vec::new();
    let mut i: usize = 0;
    while i < list.len()
        invariant
            i <= list.len(),
            r@ == list@.take(i as int),
        decreases list.len() - i,
    {
        r.push(list[i].clone());
        assert(r@ =~= list@.take(i + 1));
        i = i + 1;
    }
    assert(list@.take(list.len() as int) =~= list@);
    r
}

/// The report a tree acts on after one item.
fn pick_report(acc: Option<TreeActionType>, r: &TreeReport) -> (out: Option<TreeActionType>)
    ensures
        out == pick_item(acc, *r),
    decreases *r,
{
    match r {
        TreeReport::Branch { changed, items } => {
            let here = match changed {
                Some((a, v)) => Some(TreeActionType::Branch(*a, v.clone())),
                None => acc,
            };
            proof {
                assert(decreases_to!(*r => *items));
            }
            pick_reports(here, items)
        },
        TreeReport::Leaf { clicked } => match clicked {
            Some((a, v)) => if acc.is_none() { Some(TreeActionType::Leaf(*a, v.clone())) } else { acc },
            None => acc,
        },
    }
}

/// The report a tree acts on after a list of items.
fn pick_reports(acc: Option<TreeActionType>, items: &Vec<TreeReport>) -> (out: Option<TreeActionType>)
    ensures
        out == pick_items(acc, items@),
    decreases items,
{
    let mut cur = acc;
    let mut i: usize = 0;
    while i < items.len()
        invariant
            i <= items.len(),
            cur == pick_items(acc, items@.take(i as int)),
        decreases items.len() - i,
    {
        proof {
            assert(items@.take(i + 1).drop_last() =~= items@.take(i as int));
            assert(decreases_to!(*items => items@));
            assert(decreases_to!(items@ => items@[i as int]));
        }
        cur = pick_report(cur, &items[i]);
        i = i + 1;
    }
    assert(items@.take(items.len() as int) =~= items@);
    cur
}

/// Whether two items carry the same values and flags, all the way down.
pub open spec fn same_item(a: TreeItemMode, b: TreeItemMode) -> bool
    decreases a,
{
    match a {
        TreeItemMode::Branch { active, value, items } => {
            &&& b is Branch
            &&& b.spec_active() == active
            &&& b.spec_value() == value@
            &&& b.spec_items().len() == items@.len()
            &&& forall|i: int| #![trigger items@[i]] 0 <= i < items@.len() ==> same_item(items@[i], b.spec_items()[i])
        },
        TreeItemMode::Leaf { value, active } => {
            &&& b is Leaf
            &&& b.spec_active() == active
            &&& b.spec_value() == value@
        },
    }
}

proof fn lemma_chain_name_nonempty(chain: Seq<usize>)
    requires
        chain.len() > 0,
    ensures
        chain_name(chain).len() > 0,
{
    lemma_decimal_nonempty(chain.last() as nat);
    if chain.len() == 1 {
        lemma_decimal_nonempty(chain[0] as nat);
    }
}

proof fn lemma_applied_named(a: TreeItemMode, b: TreeItemMode, chain: Seq<usize>, actives: Seq<Seq<char>>)
    requires
        chain.len() > 0,
        applied(a, b, chain, actives),
    ensures
        b.spec_value().len() > 0,
{
    lemma_chain_name_nonempty(chain);
}

proof fn lemma_same_item_leaves(x: TreeItemMode, y: TreeItemMode)
    requires
        same_item(x, y),
    ensures
        has_leaf(x) == has_leaf(y),
        leaves_active(x) == leaves_active(y),
    decreases x,
{
    match x {
        TreeItemMode::Branch { items, .. } => {
            assert forall|i: int| 0 <= i < items@.len() implies
                has_leaf(#[trigger] items@[i]) == has_leaf(y.spec_items()[i])
                && leaves_active(items@[i]) == leaves_active(y.spec_items()[i]) by {
                lemma_same_item_leaves(items@[i], y.spec_items()[i]);
            }
            lemma_same_items_leaves(x, y);
        },
        TreeItemMode::Leaf { .. } => {},
    }
}

/// Two branches whose items pairwise carry the same values and flags agree
/// on having a leaf and on all their leaves being active.
proof fn lemma_same_items_leaves(x: TreeItemMode, y: TreeItemMode)
    requires
        x is Branch,
        y is Branch,
        x.spec_items().len() == y.spec_items().len(),
        forall|i: int| 0 <= i < x.spec_items().len() ==> has_leaf(#[trigger] x.spec_items()[i]) == has_leaf(y.spec_items()[i])
            && leaves_active(x.spec_items()[i]) == leaves_active(y.spec_items()[i]),
    ensures
        has_leaf(x) == has_leaf(y),
        leaves_active(x) == leaves_active(y),
{
    let xi = x.spec_items();
    let yi = y.spec_items();
    if has_leaf(x) {
        let k = choose|k: int| 0 <= k < xi.len() && has_leaf(#[trigger] xi[k]);
        assert(has_leaf(yi[k]));
    }
    if has_leaf(y) {
        let k = choose|k: int| 0 <= k < yi.len() && has_leaf(#[trigger] yi[k]);
        assert(has_leaf(xi[k]));
    }
    if !leaves_active(x) {
        let k = choose|k: int| 0 <= k < xi.len() && !leaves_active(#[trigger] xi[k]);
        assert(!leaves_active(yi[k]));
    }
    if !leaves_active(y) {
        let k = choose|k: int| 0 <= k < yi.len() && !leaves_active(#[trigger] yi[k]);
        assert(!leaves_active(xi[k]));
    }
}

/// Spreading a list of actives over an item that it was already spread over
/// changes no value and no flag.
pub proof fn lemma_apply_actives_item_idempotent(
    a: TreeItemMode,
    b: TreeItemMode,
    c: TreeItemMode,
    chain: Seq<usize>,
    actives: Seq<Seq<char>>,
)
    requires
        chain.len() > 0,
        applied(a, b, chain, actives),
        applied(b, c, chain, actives),
    ensures
        same_item(b, c),
    decreases a,
{
    lemma_applied_named(a, b, chain, actives);
    match a {
        TreeItemMode::Branch { active, value, items } => {
            let bi = b.spec_items();
            let ci = c.spec_items();
            assert forall|i: int| 0 <= i < bi.len() implies same_item(#[trigger] bi[i], ci[i]) by {
                assert(applied(items@[i], bi[i], chain.push(i as usize), actives));
                lemma_apply_actives_item_idempotent(items@[i], bi[i], ci[i], chain.push(i as usize), actives);
            }
            match b {
                TreeItemMode::Branch { items: b_items, .. } => {
                    assert(b_items@ == bi);
                    assert forall|i: int| 0 <= i < b_items@.len() implies same_item(#[trigger] b_items@[i], ci[i]) by {
                        assert(same_item(bi[i], ci[i]));
                    }
                    assert forall|i: int| 0 <= i < bi.len() implies has_leaf(#[trigger] bi[i]) == has_leaf(ci[i])
                        && leaves_active(bi[i]) == leaves_active(ci[i]) by {
                        lemma_same_item_leaves(bi[i], ci[i]);
                    }
                    lemma_same_items_leaves(b, c);
                },
                TreeItemMode::Leaf { .. } => {},
            }
        },
        TreeItemMode::Leaf { .. } => {},
    }
}

/// Spreading a list of actives over a tree that it was already spread over
/// changes no value and no flag.
pub proof fn lemma_apply_actives_idempotent(
    a: Seq<TreeItemMode>,
    b: Seq<TreeItemMode>,
    c: Seq<TreeItemMode>,
    actives: Seq<Seq<char>>,
)
    requires
        applied_list(a, b, actives),
        applied_list(b, c, actives),
    ensures
        c.len() == b.len(),
        forall|i: int| 0 <= i < b.len() ==> same_item(#[trigger] b[i], c[i]),
{
    assert forall|i: int| 0 <= i < b.len() implies same_item(#[trigger] b[i], c[i]) by {
        assert(applied(a[i], b[i], seq![i as usize], actives));
        assert(applied(b[i], c[i], seq![i as usize], actives));
        lemma_apply_actives_item_idempotent(a[i], b[i], c[i], seq![i as usize], actives);
    }
}

/// After an item turned active its value is listed exactly once more than
/// never; after it turned inactive it is not listed at all.
pub proof fn lemma_toggled_actives(list: Seq<Seq<char>>, v: Seq<char>)
    ensures
        toggled_actives(list, v, true).contains(v),
        !toggled_actives(list, v, false).contains(v),
        !toggled_actives(toggled_actives(list, v, true), v, false).contains(v),
{
    lemma_without_absent(list, v);
    lemma_without_absent(toggled_actives(list, v, true), v);
    if !list.contains(v) {
        assert(list.push(v)[list.len() as int] == v);
    }
}

proof fn lemma_without_absent(list: Seq<Seq<char>>, v: Seq<char>)
    ensures
        !without(list, v).contains(v),
        forall|x: Seq<char>| without(list, v).contains(x) ==> list.contains(x),
    decreases list.len(),
{
    if list.len() > 0 {
        lemma_without_absent(list.drop_last(), v);
        let w = without(list.drop_last(), v);
        assert forall|x: Seq<char>| without(list, v).contains(x) implies list.contains(x) by {
            if w.contains(x) {
                let k = choose|k: int| 0 <= k < w.len() && w[k] == x;
                assert(list.drop_last().contains(x));
                let j = choose|j: int| 0 <= j < list.drop_last().len() && list.drop_last()[j] == x;
                assert(list[j] == x);
            } else {
                assert(list.last() != v);
                let k = choose|k: int| 0 <= k < without(list, v).len() && without(list, v)[k] == x;
                assert(without(list, v) == w.push(list.last()));
                assert(k == w.len());
                assert(list[list.len() - 1] == x);
            }
        }
        if list.last() != v {
            if without(list, v).contains(v) {
                let k = choose|k: int| 0 <= k < without(list, v).len() && without(list, v)[k] == v;
                assert(without(list, v) == w.push(list.last()));
                if k < w.len() {
                    assert(w[k] == v);
                }
            }
        }
    }
}

/// A list with no entry twice keeps that property when an item is toggled.
pub proof fn lemma_toggled_actives_distinct(list: Seq<Seq<char>>, v: Seq<char>, active: bool)
    requires
        list.no_duplicates(),
    ensures
        toggled_actives(list, v, active).no_duplicates(),
{
    if active {
        if !list.contains(v) {
            let l2 = list.push(v);
            assert forall|i: int, j: int| 0 <= i < l2.len() && 0 <= j < l2.len() && i != j implies l2[i] != l2[j] by {
                if i == list.len() as int {
                    assert(!list.contains(l2[j]) || l2[j] != v);
                } else if j == list.len() as int {
                    assert(l2[i] == list[i]);
                }
            }
        }
    } else {
        lemma_without_distinct(list, v);
    }
}

proof fn lemma_without_distinct(list: Seq<Seq<char>>, v: Seq<char>)
    requires
        list.no_duplicates(),
    ensures
        without(list, v).no_duplicates(),
    decreases list.len(),
{
    if list.len() > 0 {
        let d = list.drop_last();
        assert(d.no_duplicates()) by {
            assert forall|i: int, j: int| 0 <= i < d.len() && 0 <= j < d.len() && i != j implies d[i] != d[j] by {
                assert(list[i] != list[j]);
            }
        }
        lemma_without_distinct(d, v);
        lemma_without_absent(d, v);
        let w = without(d, v);
        if list.last() != v {
            let l2 = w.push(list.last());
            assert(!d.contains(list.last())) by {
                if d.contains(list.last()) {
                    let k = choose|k: int| 0 <= k < d.len() && d[k] == list.last();
                    assert(list[k] == list[list.len() - 1]);
                }
            }
            assert(!w.contains(list.last()));
            assert forall|i: int, j: int| 0 <= i < l2.len() && 0 <= j < l2.len() && i != j implies l2[i] != l2[j] by {
                if i == w.len() as int {
                    assert(l2[j] == w[j]);
                } else if j == w.len() as int {
                    assert(l2[i] == w[i]);
                } else {
                    assert(l2[i] == w[i] && l2[j] == w[j]);
                }
            }
        }
    }
}

impl GTree {
    /// Draws the tree where it is visible, with its body where that is
    /// visible too, which gives the tree the scope its events need; a hidden
    /// tree is not drawn and gets no scope. Returns whether the tree and its
    /// body were drawn.
    pub fn draw_walk(&mut self) -> (drawn: (bool, bool))
        ensures
            drawn == (old(self).visible, old(self).visible && old(self).body_visible),
            *final(self) == (GTree { scoped: old(self).scoped || old(self).visible, ..*old(self) }),
    {
        if self.visible {
            self.scoped = true;
        }
        (self.visible, self.visible && self.body_visible)
    }
}

/// Whether two lists of items carry the same values and flags, place by place.
pub open spec fn same_items(a: Seq<TreeItemMode>, b: Seq<TreeItemMode>) -> bool {
    &&& b.len() == a.len()
    &&& forall|i: int| #![trigger a[i]] 0 <= i < a.len() ==> same_item(a[i], b[i])
}

/// A copy of an item and everything below it.
pub fn copy_item(item: &TreeItemMode) -> (r: TreeItemMode)
    ensures
        same_item(*item, r),
    decreases item,
{
    match item {
        TreeItemMode::Leaf { value, active } => TreeItemMode::Leaf { value: value.clone(), active: *active },
        TreeItemMode::Branch { active, value, items } => {
            let mut out: Vec<TreeItemMode> = Vec::new();
            let mut i: usize = 0;
            while i < items.len()
                invariant
                    *item is Branch,
                    item->items == *items,
                    i <= items@.len(),
                    out@.len() == i,
                    forall|j: int| #![trigger items@[j]] 0 <= j < i ==> same_item(items@[j], out@[j]),
                decreases items.len() - i,
            {
                proof {
                    let its = item->items;
                    assert(its == *items);
                    assert(decreases_to!(*item => its));
                    assert(decreases_to!(its => its@));
                    assert(decreases_to!(its@ => its@[i as int]));
                }
                let c = copy_item(&items[i]);
                let ghost before = out@;
                out.push(c);
                proof {
                    assert forall|j: int| 0 <= j < i implies out@[j] == before[j] by {}
                }
                i = i + 1;
            }
            let r = TreeItemMode::Branch { active: *active, value: value.clone(), items: out };
            proof {
                assert(r.spec_items() == out@);
            }
            r
        },
    }
}

/// A copy of a list of items.
pub fn copy_items(items: &Vec<TreeItemMode>) -> (r: Vec<TreeItemMode>)
    ensures
        same_items(items@, r@),
{
    let mut out: Vec<TreeItemMode> = Vec::new();
    let mut i: usize = 0;
    while i < items.len()
        invariant
            i <= items@.len(),
            out@.len() == i,
            forall|j: int| #![trigger items@[j]] 0 <= j < i ==> same_item(items@[j], out@[j]),
        decreases items.len() - i,
    {
        let c = copy_item(&items[i]);
        let ghost before = out@;
        out.push(c);
        proof {
            assert forall|j: int| 0 <= j < i implies out@[j] == before[j] by {}
        }
        i = i + 1;
    }
    out
}

proof fn lemma_renamed_same(a: TreeItemMode, b: TreeItemMode, c: TreeItemMode, chain: Seq<usize>)
    requires
        renamed(a, b, chain),
        same_item(b, c),
    ensures
        renamed(a, c, chain),
    decreases a,
{
    match a {
        TreeItemMode::Branch { items, .. } => {
            assert forall|i: int| #![trigger items@[i]] 0 <= i < items@.len() implies
                renamed(items@[i], c.spec_items()[i], chain.push(i as usize)) by {
                match b {
                    TreeItemMode::Branch { items: bi, .. } => {
                        assert(same_item(bi@[i], c.spec_items()[i]));
                    },
                    TreeItemMode::Leaf { .. } => {},
                }
                lemma_renamed_same(items@[i], b.spec_items()[i], c.spec_items()[i], chain.push(i as usize));
            }
        },
        TreeItemMode::Leaf { .. } => {},
    }
}

proof fn lemma_same_applied(a: TreeItemMode, b: TreeItemMode, c: TreeItemMode, chain: Seq<usize>, actives: Seq<Seq<char>>)
    requires
        same_item(a, b),
        applied(a, c, chain, actives),
    ensures
        applied(b, c, chain, actives),
    decreases a,
{
    match a {
        TreeItemMode::Branch { items, .. } => {
            match b {
                TreeItemMode::Branch { items: bi, .. } => {
                    assert forall|i: int| #![trigger bi@[i]] 0 <= i < bi@.len() implies
                        applied(bi@[i], c.spec_items()[i], chain.push(i as usize), actives) by {
                        assert(same_item(items@[i], bi@[i]));
                        assert(applied(items@[i], c.spec_items()[i], chain.push(i as usize), actives));
                        lemma_same_applied(items@[i], bi@[i], c.spec_items()[i], chain.push(i as usize), actives);
                    }
                },
                TreeItemMode::Leaf { .. } => {},
            }
        },
        TreeItemMode::Leaf { .. } => {},
    }
}

/// A tree acts on a leaf's click with the leaf's own flag: a single report of
/// a leaf clicked to `a` with value `v` makes the tree act on exactly that,
/// and afterwards `v` is listed among the actives exactly when `a` is set; a
/// leaf clicked off leaves the list.
pub proof fn lemma_leaf_click_decides_membership(list: Seq<Seq<char>>, a: bool, v: String)
    ensures
        pick_items(None, seq![TreeReport::Leaf { clicked: Some((a, v)) }]) == Some(TreeActionType::Leaf(a, v)),
        toggled_actives(list, v@, a).contains(v@) == a,
{
    let r = TreeReport::Leaf { clicked: Some((a, v)) };
    let reports = seq![r];
    assert(reports.drop_last() =~= Seq::<TreeReport>::empty());
    assert(pick_items(None, reports.drop_last()) is None);
    assert(reports.last() == r);
    assert(pick_item(None, r) == Some(TreeActionType::Leaf(a, v)));
    lemma_toggled_actives(list, v@);
}

/// A tree acts on a branch's change with the branch's own flag, and on a
/// leaf's click below a branch that sent no change with the leaf's own flag.
pub proof fn lemma_branch_report_decides(a: bool, v: String, none_below: Vec<TreeReport>, leaf_below: Vec<TreeReport>)
    requires
        none_below@.len() == 0,
        leaf_below@ == seq![TreeReport::Leaf { clicked: Some((a, v)) }],
    ensures
        pick_items(None, seq![TreeReport::Branch { changed: Some((a, v)), items: none_below }])
            == Some(TreeActionType::Branch(a, v)),
        pick_items(None, seq![TreeReport::Branch { changed: None, items: leaf_below }])
            == Some(TreeActionType::Leaf(a, v)),
{
    let r1 = TreeReport::Branch { changed: Some((a, v)), items: none_below };
    let s1 = seq![r1];
    assert(s1.drop_last() =~= Seq::<TreeReport>::empty());
    assert(pick_items(None, s1.drop_last()) is None);
    assert(s1.last() == r1);
    assert(pick_items(Some(TreeActionType::Branch(a, v)), none_below@) == Some(TreeActionType::Branch(a, v)));
    assert(pick_item(None, r1) == pick_items(Some(TreeActionType::Branch(a, v)), none_below@));
    assert(pick_items(None, s1) == pick_item(pick_items(None, s1.drop_last()), s1.last()));
    let leaf = TreeReport::Leaf { clicked: Some((a, v)) };
    let r2 = TreeReport::Branch { changed: None, items: leaf_below };
    let s2 = seq![r2];
    assert(s2.drop_last() =~= Seq::<TreeReport>::empty());
    assert(pick_items(None, s2.drop_last()) is None);
    assert(s2.last() == r2);
    assert(leaf_below@.drop_last() =~= Seq::<TreeReport>::empty());
    assert(pick_items(None, leaf_below@.drop_last()) is None);
    assert(leaf_below@.last() == leaf);
    assert(pick_item(None, leaf) == Some(TreeActionType::Leaf(a, v)));
    assert(pick_items(None, leaf_below@) == pick_item(pick_items(None, leaf_below@.drop_last()), leaf_below@.last()));
    assert(pick_items(None, leaf_below@) == Some(TreeActionType::Leaf(a, v)));
    assert(pick_item(None, r2) == pick_items(None, leaf_below@));
    assert(pick_items(None, s2) == pick_item(pick_items(None, s2.drop_last()), s2.last()));
}

} // verus!
