//! Groups in which one member at most is active: the radio group and the tab
//! bar. A member without a value is named by its position.

use vstd::prelude::*;
use crate::radio::{same_setup, radio_toggle_effects, radio_toggle_state, GRadio, RadioClicked, RadioEffect, RadioEvent};
use crate::tabbar::{tab_event, tab_toggle, GTabbarItem, TabbarItemEffect};
use crate::text::{decimal, lemma_decimal_nonempty, usize_to_string};
use crate::children::{draw_order, draw_plan, ids_of, items_of, reorder_beside, reorder_run, truncated, zip_ids, ApplyFrom};
use crate::widget::{Effect, Hit, Track};

verus! {

broadcast use vstd::std_specs::vec::group_vec_axioms;

/// The value a member of a group ends with: its own, or its position where it has none.
pub open spec fn indexed_value(old: Seq<char>, index: int) -> Seq<char> {
    if old.len() == 0 { decimal(index as nat) } else { old }
}

/// The value and active flag of each radio of a group.
pub open spec fn radio_members(rs: Seq<GRadio>) -> Seq<(Seq<char>, bool)> {
    Seq::new(rs.len(), |i: int| (rs[i].value@, rs[i].active))
}

/// The value and active flag of each tab of a bar.
pub open spec fn tab_members(ts: Seq<GTabbarItem>) -> Seq<(Seq<char>, bool)> {
    Seq::new(ts.len(), |i: int| (ts[i].value@, ts[i].active))
}

/// How many members of a group are active.
pub open spec fn active_count(m: Seq<(Seq<char>, bool)>) -> nat
    decreases m.len(),
{
    if m.len() == 0 {
        0
    } else {
        active_count(m.drop_last()) + (if m.last().1 { 1nat } else { 0nat })
    }
}

/// The value of the first active member of a group, named, if one is active.
pub open spec fn first_active(m: Seq<(Seq<char>, bool)>) -> Option<Seq<char>>
    decreases m.len(),
{
    if m.len() == 0 {
        None
    } else {
        match first_active(m.drop_last()) {
            Some(v) => Some(v),
            None => if m.last().1 { Some(indexed_value(m.last().0, m.len() - 1)) } else { None },
        }
    }
}

/// Whether exactly the members whose value is `v` are active.
pub open spec fn only_value_active(m: Seq<(Seq<char>, bool)>, v: Seq<char>) -> bool {
    forall|i: int| #![trigger m[i]] 0 <= i < m.len() ==> (m[i].1 <==> m[i].0 == v)
}

/// Names a member without a value by its position.
pub fn fill_value(value: String, index: usize) -> (r: String)
    ensures
        r@ == indexed_value(value@, index as int),
        value@.len() > 0 ==> r == value,
{
    if value.as_str().unicode_len() == 0 {
        usize_to_string(index)
    } else {
        value
    }
}

/// The radio group: one radio at most is active.
pub struct GRadioGroup {
    pub active: Option<String>,
    pub radios: Vec<GRadio>,
}

/// The change a radio group reports: the value now active and the position
/// of the radio that was clicked.
#[derive(Clone, Debug, PartialEq, Eq)]
pub struct RadioGroupChanged {
    pub value: Option<String>,
    pub index: i32,
}

/// The position of the first radio whose click says it turned active.
pub open spec fn first_active_click(clicks: Seq<Option<RadioClicked>>) -> Option<int>
    decreases clicks.len(),
{
    if clicks.len() == 0 {
        None
    } else {
        match first_active_click(clicks.drop_last()) {
            Some(i) => Some(i),
            None => if clicks.last() matches Some(c) && c.active { Some(clicks.len() - 1) } else { None },
        }
    }
}

/// The first click among the effects of a radio, if there is one.
pub open spec fn click_of(fx: Seq<RadioEffect>) -> Option<RadioClicked>
    decreases fx.len(),
{
    if fx.len() == 0 {
        None
    } else {
        match click_of(fx.drop_last()) {
            Some(c) => Some(c),
            None => match fx.last() {
                Effect::Emit(RadioEvent::Clicked(c)) => Some(c),
                _ => None,
            },
        }
    }
}

proof fn lemma_take_step<A>(s: Seq<A>, i: int)
    requires
        0 <= i < s.len(),
    ensures
        s.take(i + 1).drop_last() == s.take(i),
        s.take(i + 1).last() == s[i],
{
    assert(s.take(i + 1).drop_last() =~= s.take(i));
}

/// The first click among the effects of a radio.
pub fn clicked_in(fx: &Vec<RadioEffect>) -> (r: Option<RadioClicked>)
    ensures
        r == click_of(fx@),
{
    let mut i: usize = 0;
    while i < fx.len()
        invariant
            i <= fx.len(),
            click_of(fx@.take(i as int)) is None,
        decreases fx.len() - i,
    {
        proof {
            lemma_take_step(fx@, i as int);
        }
        match &fx[i] {
            Effect::Emit(RadioEvent::Clicked(c)) => {
                let found = RadioClicked { active: c.active, value: c.value.clone() };
                proof {
                    assert(click_of(fx@.take(i + 1)) == Some(found));
                    lemma_click_of_prefix(fx@, i as int + 1);
                }
                return Some(found);
            },
            _ => {},
        }
        i = i + 1;
    }
    assert(fx@.take(fx.len() as int) =~= fx@);
    None
}

proof fn lemma_click_of_prefix(fx: Seq<RadioEffect>, k: int)
    requires
        0 <= k <= fx.len(),
        click_of(fx.take(k)) is Some,
    ensures
        click_of(fx) == click_of(fx.take(k)),
    decreases fx.len() - k,
{
    if k < fx.len() {
        lemma_take_step(fx, k);
        lemma_click_of_prefix(fx, k + 1);
    } else {
        assert(fx.take(k) =~= fx);
    }
}

/// Whether `after` is `before` with its value named by its position `i`, and
/// nothing else changed.
pub open spec fn radio_named(before: GRadio, after: GRadio, i: int) -> bool {
    &&& after.value@ == indexed_value(before.value@, i)
    &&& after == (GRadio { value: after.value, ..before })
}

/// Whether `after` is `before` with its value named by its position `i`, and
/// nothing else changed.
pub open spec fn tab_named(before: GTabbarItem, after: GTabbarItem, i: int) -> bool {
    &&& after.value@ == indexed_value(before.value@, i)
    &&& after == (GTabbarItem { value: after.value, ..before })
}

impl GRadioGroup {
    /// Whether more than one radio of the group is active, which the group does not allow.
    pub fn has_multiple_active(&self) -> (r: bool)
        ensures
            r == (active_count(radio_members(self.radios@)) > 1),
    {
        let mut n: usize = 0;
        let mut i: usize = 0;
        while i < self.radios.len()
            invariant
                i <= self.radios@.len(),
                n <= i,
                n == active_count(radio_members(self.radios@.take(i as int))),
            decreases self.radios.len() - i,
        {
            proof {
                lemma_take_step(self.radios@, i as int);
                assert(radio_members(self.radios@.take(i + 1)).drop_last() =~= radio_members(self.radios@.take(i as int)));
            }
            if self.radios[i].active {
                n = n + 1;
            }
            i = i + 1;
        }
        assert(self.radios@.take(self.radios.len() as int) =~= self.radios@);
        n > 1
    }

    /// Finds the active radio when the group has no active value of its own:
    /// names every radio without a value by its position and takes the value
    /// of the radio that is active. With an active value nothing changes.
    pub fn find_active(&mut self)
        requires
            old(self).active is None ==> active_count(radio_members(old(self).radios@)) <= 1,
        ensures
            old(self).active is Some ==> final(self).active == old(self).active && final(self).radios@ == old(self).radios@,
            old(self).active is None ==> final(self).radios@.len() == old(self).radios@.len()
                && (forall|i: int| 0 <= i < old(self).radios@.len() ==> radio_named(old(self).radios@[i], #[trigger] final(self).radios@[i], i))
                && match final(self).active {
                    Some(v) => first_active(radio_members(old(self).radios@)) == Some(v@),
                    None => first_active(radio_members(old(self).radios@)) is None,
                },
    {
        if self.active.is_some() {
            return;
        }
        let ghost orig = self.radios@;
        let mut first: Option<String> = None;
        let mut i: usize = 0;
        while i < self.radios.len()
            invariant
                self.radios@.len() == orig.len(),
                i <= orig.len(),
                self.active == old(self).active,
                forall|j: int| 0 <= j < i ==> radio_named(orig[j], #[trigger] self.radios@[j], j),
                forall|j: int| i <= j < orig.len() ==> #[trigger] self.radios@[j] == orig[j],
                match first {
                    Some(v) => first_active(radio_members(orig.take(i as int))) == Some(v@),
                    None => first_active(radio_members(orig.take(i as int))) is None,
                },
            decreases self.radios.len() - i,
        {
            let mut value = String::new();
            std::mem::swap(&mut value, &mut self.radios[i].value);
            let value = fill_value(value, i);
            proof {
                lemma_take_step(orig, i as int);
                assert(radio_members(orig.take(i + 1)).drop_last() =~= radio_members(orig.take(i as int)));
            }
            if first.is_none() && self.radios[i].active {
                first = Some(value.clone());
            }
            self.radios[i].value = value;
            i = i + 1;
        }
        assert(orig.take(orig.len() as int) =~= orig);
        if first.is_some() {
            self.active = first;
        }
    }

    /// Sets the active value and turns on exactly the radios with that value,
    /// naming every radio without a value by its position; `init` marks the
    /// first setting. Returns the effects of each radio.
    pub fn toggle(&mut self, active_value: Option<String>, init: bool) -> (effects: Vec<Vec<RadioEffect>>)
        requires
            old(self).radios@.len() > 0 ==> active_value is Some,
        ensures
            final(self).active == active_value,
            final(self).radios@.len() == old(self).radios@.len(),
            effects@.len() == old(self).radios@.len(),
            forall|i: int| 0 <= i < old(self).radios@.len() ==> {
                let r = #[trigger] final(self).radios@[i];
                &&& r.value@ == indexed_value(old(self).radios@[i].value@, i)
                &&& same_setup(GRadio { value: r.value, ..old(self).radios@[i] }, r)
                &&& (active_value matches Some(v) ==> r.active == (r.value@ == v@))
                &&& r.state == radio_toggle_state(r.active)
                &&& effects@[i]@ == radio_toggle_effects(r, r.active, init)
            },
    {
        let ghost orig = self.radios@;
        self.active = active_value;
        let mut effects: Vec<Vec<RadioEffect>> = Vec::new();
        let mut i: usize = 0;
        while i < self.radios.len()
            invariant
                self.radios@.len() == orig.len(),
                i <= orig.len(),
                self.active == active_value,
                orig.len() > 0 ==> active_value is Some,
                effects@.len() == i,
                forall|j: int| 0 <= j < i ==> {
                    let r = #[trigger] self.radios@[j];
                    &&& r.value@ == indexed_value(orig[j].value@, j)
                    &&& same_setup(GRadio { value: r.value, ..orig[j] }, r)
                    &&& (active_value matches Some(v) ==> r.active == (r.value@ == v@))
                    &&& r.state == radio_toggle_state(r.active)
                    &&& effects@[j]@ == radio_toggle_effects(r, r.active, init)
                },
                forall|j: int| i <= j < orig.len() ==> #[trigger] self.radios@[j] == orig[j],
            decreases self.radios.len() - i,
        {
            let mut value = String::new();
            std::mem::swap(&mut value, &mut self.radios[i].value);
            let value = fill_value(value, i);
            let on = match &self.active {
                Some(v) => value == *v,
                None => false,
            };
            self.radios[i].value = value;
            let mut r = self.radios.remove(i);
            let fx = r.toggle(on, init);
            self.radios.insert(i, r);
            effects.push(fx);
            proof {
                assert forall|j: int| 0 <= j < i + 1 implies {
                    let r = #[trigger] self.radios@[j];
                    &&& r.value@ == indexed_value(orig[j].value@, j)
                    &&& same_setup(GRadio { value: r.value, ..orig[j] }, r)
                    &&& (active_value matches Some(v) ==> r.active == (r.value@ == v@))
                    &&& r.state == radio_toggle_state(r.active)
                    &&& effects@[j]@ == radio_toggle_effects(r, r.active, init)
                } by {}
            }
            i = i + 1;
        }
        effects
    }

    /// Sets the active value as the group is first set up. Without a value
    /// the group drops its own and finds the active radio among its radios;
    /// with one, exactly the radios with that value are turned on.
    pub fn set_active(&mut self, active_value: Option<String>) -> (effects: Vec<Vec<RadioEffect>>)
        requires
            active_value is None ==> active_count(radio_members(old(self).radios@)) <= 1,
        ensures
            final(self).radios@.len() == old(self).radios@.len(),
            active_value is Some ==> final(self).active == active_value
                && effects@.len() == old(self).radios@.len()
                && forall|i: int| 0 <= i < old(self).radios@.len() ==> {
                    let r = #[trigger] final(self).radios@[i];
                    &&& r.value@ == indexed_value(old(self).radios@[i].value@, i)
                    &&& same_setup(GRadio { value: r.value, ..old(self).radios@[i] }, r)
                    &&& r.active == (r.value@ == active_value->0@)
                    &&& r.state == radio_toggle_state(r.active)
                    &&& effects@[i]@ == radio_toggle_effects(r, r.active, true)
                },
            active_value is None ==> effects@.len() == 0
                && (forall|i: int| 0 <= i < old(self).radios@.len() ==> radio_named(old(self).radios@[i], #[trigger] final(self).radios@[i], i))
                && match final(self).active {
                    Some(v) => first_active(radio_members(old(self).radios@)) == Some(v@),
                    None => first_active(radio_members(old(self).radios@)) is None,
                },
    {
        if active_value.is_none() {
            self.active = None;
            self.find_active();
            return Vec::new();
        }
        self.toggle(active_value, true)
    }

    /// Sets the group up after its document was applied: with an active value
    /// of its own it turns exactly the radios with that value on, as a first
    /// setting; otherwise it finds the active radio. Returns the effects of
    /// each radio turned on or off.
    pub fn after_apply(&mut self) -> (effects: Vec<Vec<RadioEffect>>)
        requires
            old(self).active is None ==> active_count(radio_members(old(self).radios@)) <= 1,
        ensures
            final(self).radios@.len() == old(self).radios@.len(),
            old(self).active is Some ==> final(self).active == old(self).active,
            old(self).active is Some ==> effects@.len() == old(self).radios@.len()
                && forall|i: int| 0 <= i < old(self).radios@.len() ==> {
                    let r = #[trigger] final(self).radios@[i];
                    &&& r.value@ == indexed_value(old(self).radios@[i].value@, i)
                    &&& same_setup(GRadio { value: r.value, ..old(self).radios@[i] }, r)
                    &&& r.active == (r.value@ == old(self).active->0@)
                    &&& r.state == radio_toggle_state(r.active)
                    &&& effects@[i]@ == radio_toggle_effects(r, r.active, true)
                },
            old(self).active is None ==> effects@.len() == 0
                && (forall|i: int| 0 <= i < old(self).radios@.len() ==> radio_named(old(self).radios@[i], #[trigger] final(self).radios@[i], i))
                && match final(self).active {
                    Some(v) => first_active(radio_members(old(self).radios@)) == Some(v@),
                    None => first_active(radio_members(old(self).radios@)) is None,
                },
    {
        match &self.active {
            Some(v) => {
                let v = v.clone();
                self.set_active(Some(v))
            },
            None => {
                self.find_active();
                Vec::new()
            },
        }
    }

    /// Handles the clicks the radios reported in one event, one entry per
    /// radio: the first radio whose click says it turned active makes its
    /// value the group's, which turns exactly the radios with that value on.
    /// Returns the change to report and the effects of each radio.
    pub fn handle_event(&mut self, clicks: &Vec<Option<RadioClicked>>) -> (r: (Option<RadioGroupChanged>, Vec<Vec<RadioEffect>>))
        ensures
            match first_active_click(clicks@) {
                None => r.0 is None && r.1@.len() == 0 && final(self).active == old(self).active
                    && final(self).radios@ == old(self).radios@,
                Some(i) => clicks@[i] matches Some(c) && r.0 == Some(RadioGroupChanged { value: Some(c.value), index: i as i32 })
                    && final(self).active == Some(c.value)
                    && final(self).radios@.len() == old(self).radios@.len()
                    && r.1@.len() == old(self).radios@.len()
                    && forall|k: int| 0 <= k < old(self).radios@.len() ==> {
                        let rk = #[trigger] final(self).radios@[k];
                        &&& rk.value@ == indexed_value(old(self).radios@[k].value@, k)
                        &&& same_setup(GRadio { value: rk.value, ..old(self).radios@[k] }, rk)
                        &&& rk.active == (rk.value@ == c.value@)
                        &&& rk.state == radio_toggle_state(rk.active)
                        &&& r.1@[k]@ == radio_toggle_effects(rk, rk.active, false)
                    },
            },
    {
        match find_active_click(clicks) {
            Some(i) => {
                let value = match &clicks[i] {
                    Some(c) => c.value.clone(),
                    None => String::new(),
                };
                let fx = self.toggle(Some(value.clone()), false);
                (Some(RadioGroupChanged { value: Some(value), index: i as i32 }), fx)
            },
            None => (None, Vec::new()),
        }
    }
}

/// The position of the first radio whose click says it turned active.
fn find_active_click(clicks: &Vec<Option<RadioClicked>>) -> (r: Option<usize>)
    ensures
        match r {
            Some(i) => first_active_click(clicks@) == Some(i as int) && i < clicks@.len()
                && (clicks@[i as int] matches Some(c) && c.active),
            None => first_active_click(clicks@) is None,
        },
{
    let mut i: usize = 0;
    while i < clicks.len()
        invariant
            i <= clicks.len(),
            first_active_click(clicks@.take(i as int)) is None,
        decreases clicks.len() - i,
    {
        proof {
            lemma_take_step(clicks@, i as int);
        }
        match &clicks[i] {
            Some(c) => {
                if c.active {
                    proof {
                        assert(first_active_click(clicks@.take(i + 1)) == Some(i as int));
                        lemma_first_active_click_prefix(clicks@, i as int + 1);
                    }
                    return Some(i);
                }
            },
            None => {},
        }
        i = i + 1;
    }
    assert(clicks@.take(clicks.len() as int) =~= clicks@);
    None
}

proof fn lemma_first_active_click_prefix(clicks: Seq<Option<RadioClicked>>, k: int)
    requires
        0 <= k <= clicks.len(),
        first_active_click(clicks.take(k)) is Some,
    ensures
        first_active_click(clicks) == first_active_click(clicks.take(k)),
    decreases clicks.len() - k,
{
    if k < clicks.len() {
        lemma_take_step(clicks, k);
        lemma_first_active_click_prefix(clicks, k + 1);
    } else {
        assert(clicks.take(k) =~= clicks);
    }
}

/// The state of a tab bar.
#[derive(Clone, Copy, Debug, PartialEq, Eq, Hash)]
pub enum TabbarState {
    Basic,
    Disabled,
}

impl TabbarState {
    /// The animator track whose values show the state.
    pub open spec fn spec_track(self) -> Track {
        match self {
            TabbarState::Basic => Track::HoverOff,
            TabbarState::Disabled => Track::HoverDisabled,
        }
    }

    /// The animator track whose values show the state.
    pub fn track(&self) -> (t: Track)
        ensures
            t == self.spec_track(),
    {
        match self {
            TabbarState::Basic => Track::HoverOff,
            TabbarState::Disabled => Track::HoverDisabled,
        }
    }
}

/// The tab bar: one tab at most is active.
pub struct GTabbar {
    pub visible: bool,
    pub disabled: bool,
    pub state: TabbarState,
    /// Whether the bar has been drawn into a scope.
    pub scoped: bool,
    pub active: Option<String>,
    /// The id of each tab, at the tab's place.
    pub ids: Vec<u64>,
    pub items: Vec<GTabbarItem>,
    /// The ids of the tabs in the order the last live update of the bar's
    /// document wrote them in.
    pub live_update_order: Vec<u64>,
}

/// What the bar's handling of its active tab leaves as it is: its flags, its
/// state and the ids of its tabs.
pub open spec fn tabbar_frame(a: GTabbar, b: GTabbar) -> bool {
    &&& a.visible == b.visible
    &&& a.disabled == b.disabled
    &&& a.state == b.state
    &&& a.scoped == b.scoped
    &&& a.ids == b.ids
    &&& a.live_update_order == b.live_update_order
}

/// The ids and the tabs of a bar once a live update of its document put them
/// in the order it wrote them in; other applications leave them as they are.
pub open spec fn tabs_after_update(b: GTabbar, from: ApplyFrom) -> (Seq<u64>, Seq<GTabbarItem>) {
    if from == ApplyFrom::UpdateFromDoc {
        let r = truncated(reorder_run(zip_ids(b.ids@, b.items@), b.live_update_order@)->0, b.live_update_order@.len() as int);
        (ids_of(r), items_of(r))
    } else {
        (b.ids@, b.items@)
    }
}

/// The change a tab bar reports: the value of the tab that was clicked and
/// its position.
#[derive(Clone, Debug, PartialEq, Eq)]
pub struct TabbarChanged {
    pub value: Option<String>,
    pub index: usize,
}

/// The position of the first tab that hands its bar a click for its hit.
pub open spec fn first_handed(tabs: Seq<GTabbarItem>, hits: Seq<Hit>) -> Option<int>
    decreases tabs.len(),
{
    if tabs.len() == 0 {
        None
    } else {
        match first_handed(tabs.drop_last(), hits) {
            Some(i) => Some(i),
            None => if tab_event(tabs.last(), hits[tabs.len() - 1], true).2 is Some { Some(tabs.len() - 1) } else { None },
        }
    }
}

impl GTabbar {
    /// Whether more than one tab of the bar is active, which the bar does not allow.
    pub fn has_multiple_active(&self) -> (r: bool)
        ensures
            r == (active_count(tab_members(self.items@)) > 1),
    {
        let mut n: usize = 0;
        let mut i: usize = 0;
        while i < self.items.len()
            invariant
                i <= self.items@.len(),
                n <= i,
                n == active_count(tab_members(self.items@.take(i as int))),
            decreases self.items.len() - i,
        {
            proof {
                lemma_take_step(self.items@, i as int);
                assert(tab_members(self.items@.take(i + 1)).drop_last() =~= tab_members(self.items@.take(i as int)));
            }
            if self.items[i].active {
                n = n + 1;
            }
            i = i + 1;
        }
        assert(self.items@.take(self.items.len() as int) =~= self.items@);
        n > 1
    }

    /// Names every tab without a value by its position; returns the named
    /// value of the first active tab.
    fn fill_values(&mut self) -> (first: Option<String>)
        ensures
            tabbar_frame(*old(self), *final(self)),
            final(self).active == old(self).active,
            final(self).items@.len() == old(self).items@.len(),
            forall|i: int| 0 <= i < old(self).items@.len() ==> tab_named(old(self).items@[i], #[trigger] final(self).items@[i], i),
            match first {
                Some(v) => first_active(tab_members(old(self).items@)) == Some(v@),
                None => first_active(tab_members(old(self).items@)) is None,
            },
    {
        let ghost orig = self.items@;
        let mut first: Option<String> = None;
        let mut i: usize = 0;
        while i < self.items.len()
            invariant
                tabbar_frame(*old(self), *self),
                self.items@.len() == orig.len(),
                i <= orig.len(),
                self.active == old(self).active,
                forall|j: int| 0 <= j < i ==> tab_named(orig[j], #[trigger] self.items@[j], j),
                forall|j: int| i <= j < orig.len() ==> #[trigger] self.items@[j] == orig[j],
                match first {
                    Some(v) => first_active(tab_members(orig.take(i as int))) == Some(v@),
                    None => first_active(tab_members(orig.take(i as int))) is None,
                },
            decreases self.items.len() - i,
        {
            let mut value = String::new();
            std::mem::swap(&mut value, &mut self.items[i].value);
            let value = fill_value(value, i);
            proof {
                lemma_take_step(orig, i as int);
                assert(tab_members(orig.take(i + 1)).drop_last() =~= tab_members(orig.take(i as int)));
            }
            if first.is_none() && self.items[i].active {
                first = Some(value.clone());
            }
            self.items[i].value = value;
            i = i + 1;
        }
        assert(orig.take(orig.len() as int) =~= orig);
        first
    }

    /// Finds the active tab when the bar has no active value of its own:
    /// names every tab without a value by its position and takes the value of
    /// the tab that is active. With an active value nothing changes.
    pub fn find_active(&mut self)
        requires
            old(self).active is None ==> active_count(tab_members(old(self).items@)) <= 1,
        ensures
            tabbar_frame(*old(self), *final(self)),
            old(self).active is Some ==> final(self).active == old(self).active && final(self).items@ == old(self).items@,
            old(self).active is None ==> final(self).items@.len() == old(self).items@.len()
                && (forall|i: int| 0 <= i < old(self).items@.len() ==> tab_named(old(self).items@[i], #[trigger] final(self).items@[i], i))
                && match final(self).active {
                    Some(v) => first_active(tab_members(old(self).items@)) == Some(v@),
                    None => first_active(tab_members(old(self).items@)) is None,
                },
    {
        if self.active.is_some() {
            return;
        }
        let first = self.fill_values();
        if first.is_some() {
            self.active = first;
        }
    }

    /// Sets the active value and turns on exactly the tabs with that value,
    /// naming every tab without a value by its position; the bar reports the
    /// change itself, so the tabs send no clicks. Returns the effects of each tab.
    pub fn toggle(&mut self, active_value: Option<String>, init: bool) -> (effects: Vec<Vec<TabbarItemEffect>>)
        requires
            old(self).items@.len() > 0 ==> active_value is Some,
        ensures
            tabbar_frame(*old(self), *final(self)),
            final(self).active == active_value,
            final(self).items@.len() == old(self).items@.len(),
            effects@.len() == old(self).items@.len(),
            forall|i: int| 0 <= i < old(self).items@.len() ==> {
                let t = #[trigger] final(self).items@[i];
                let named = GTabbarItem { value: t.value, ..old(self).items@[i] };
                let on = active_value matches Some(v) && t.value@ == v@;
                &&& t.value@ == indexed_value(old(self).items@[i].value@, i)
                &&& (old(self).items@[i].value@.len() > 0 ==> t.value == old(self).items@[i].value)
                &&& (t, effects@[i]@) == tab_toggle(named, on, init, true)
            },
    {
        let ghost orig = self.items@;
        self.active = active_value;
        let mut effects: Vec<Vec<TabbarItemEffect>> = Vec::new();
        let mut i: usize = 0;
        while i < self.items.len()
            invariant
                tabbar_frame(*old(self), *self),
                self.items@.len() == orig.len(),
                i <= orig.len(),
                self.active == active_value,
                orig.len() > 0 ==> active_value is Some,
                effects@.len() == i,
                forall|j: int| 0 <= j < i ==> {
                    let t = #[trigger] self.items@[j];
                    let named = GTabbarItem { value: t.value, ..orig[j] };
                    let on = active_value matches Some(v) && t.value@ == v@;
                    &&& t.value@ == indexed_value(orig[j].value@, j)
                    &&& (orig[j].value@.len() > 0 ==> t.value == orig[j].value)
                    &&& (t, effects@[j]@) == tab_toggle(named, on, init, true)
                },
                forall|j: int| i <= j < orig.len() ==> #[trigger] self.items@[j] == orig[j],
            decreases self.items.len() - i,
        {
            let mut value = String::new();
            std::mem::swap(&mut value, &mut self.items[i].value);
            let value = fill_value(value, i);
            let on = match &self.active {
                Some(v) => value == *v,
                None => false,
            };
            self.items[i].value = value;
            let mut t = self.items.remove(i);
            let fx = t.toggle_mixin(on, init, true);
            self.items.insert(i, t);
            effects.push(fx);
            i = i + 1;
        }
        effects
    }

    /// Sets the active value as the bar is first set up. Without a value the
    /// bar drops its own and finds the active tab among its tabs; with one,
    /// exactly the tabs with that value are turned on.
    pub fn set_active(&mut self, active_value: Option<String>) -> (effects: Vec<Vec<TabbarItemEffect>>)
        requires
            active_value is None ==> active_count(tab_members(old(self).items@)) <= 1,
        ensures
            tabbar_frame(*old(self), *final(self)),
            final(self).items@.len() == old(self).items@.len(),
            active_value is Some ==> final(self).active == active_value
                && effects@.len() == old(self).items@.len()
                && forall|i: int| 0 <= i < old(self).items@.len() ==> {
                    let t = #[trigger] final(self).items@[i];
                    let named = GTabbarItem { value: t.value, ..old(self).items@[i] };
                    &&& t.value@ == indexed_value(old(self).items@[i].value@, i)
                    &&& (t, effects@[i]@) == tab_toggle(named, t.value@ == active_value->0@, true, true)
                },
            active_value is None ==> effects@.len() == 0
                && (forall|i: int| 0 <= i < old(self).items@.len() ==> tab_named(old(self).items@[i], #[trigger] final(self).items@[i], i))
                && match final(self).active {
                    Some(v) => first_active(tab_members(old(self).items@)) == Some(v@),
                    None => first_active(tab_members(old(self).items@)) is None,
                },
    {
        if active_value.is_none() {
            self.active = None;
            self.find_active();
            return Vec::new();
        }
        self.toggle(active_value, true)
    }

    /// Sets the bar up after its document was applied. A live update of the
    /// document first puts the tabs, with their ids, in the order it wrote
    /// the ids in and drops the tabs past the end of that list. Then, with an
    /// active value of its own, the bar turns exactly the tabs with that
    /// value on, as a first setting; otherwise it finds the active tab.
    /// Returns the effects of each tab turned on or off.
    pub fn after_apply(&mut self, from: ApplyFrom) -> (effects: Vec<Vec<TabbarItemEffect>>)
        requires
            old(self).ids@.len() == old(self).items@.len(),
            from == ApplyFrom::UpdateFromDoc ==> reorder_run(zip_ids(old(self).ids@, old(self).items@), old(self).live_update_order@) is Some,
            old(self).active is None ==> active_count(tab_members(tabs_after_update(*old(self), from).1)) <= 1,
        ensures
            final(self).visible == old(self).visible,
            final(self).disabled == old(self).disabled,
            final(self).state == old(self).state,
            final(self).scoped == old(self).scoped,
            final(self).live_update_order == old(self).live_update_order,
            final(self).ids@ == tabs_after_update(*old(self), from).0,
            ({
                let tabs = tabs_after_update(*old(self), from).1;
                &&& final(self).items@.len() == tabs.len()
                &&& old(self).active is Some ==> final(self).active == old(self).active
                    && effects@.len() == tabs.len()
                    && forall|i: int| 0 <= i < tabs.len() ==> {
                        let t = #[trigger] final(self).items@[i];
                        let named = GTabbarItem { value: t.value, ..tabs[i] };
                        &&& t.value@ == indexed_value(tabs[i].value@, i)
                        &&& (t, effects@[i]@) == tab_toggle(named, t.value@ == old(self).active->0@, true, true)
                    }
                &&& old(self).active is None ==> effects@.len() == 0
                    && (forall|i: int| 0 <= i < tabs.len() ==> tab_named(tabs[i], #[trigger] final(self).items@[i], i))
                    && match final(self).active {
                        Some(v) => first_active(tab_members(tabs)) == Some(v@),
                        None => first_active(tab_members(tabs)) is None,
                    }
            }),
    {
        if let ApplyFrom::UpdateFromDoc = from {
            reorder_beside(&mut self.ids, &mut self.items, &self.live_update_order);
        }
        match &self.active {
            Some(v) => {
                let v = v.clone();
                self.set_active(Some(v))
            },
            None => {
                self.find_active();
                Vec::new()
            },
        }
    }

    /// Puts the bar in the state it is drawn in: a disabled bar shows its
    /// disabled state; an enabled one keeps the state it is in.
    pub fn render(&mut self)
        ensures
            *final(self) == (GTabbar {
                state: if old(self).disabled { TabbarState::Disabled } else { old(self).state },
                ..*old(self)
            }),
    {
        if self.disabled {
            self.state = TabbarState::Disabled;
        }
    }

    /// Draws the bar: the tabs in the order `draw_plan` gives for their ids
    /// and whether their walk is deferred, each drawn tab taking the bar's
    /// disabled flag; a hidden bar draws nothing. Drawing gives the bar a
    /// scope, even where it is hidden.
    pub fn draw_walk(&mut self, defers: &Vec<bool>) -> (order: Vec<usize>)
        requires
            old(self).ids@.len() == old(self).items@.len(),
            defers@.len() == old(self).items@.len(),
        ensures
            tabbar_frame((GTabbar { scoped: true, ..*old(self) }), *final(self)),
            final(self).active == old(self).active,
            final(self).items@.len() == old(self).items@.len(),
            !old(self).visible ==> order@.len() == 0 && final(self).items@ == old(self).items@,
            old(self).visible ==> ({
                let vis = Seq::new(old(self).items@.len(), |i: int| old(self).items@[i].visible);
                let plan = draw_plan(old(self).ids@, vis, defers@);
                &&& order@.len() == plan.len()
                &&& forall|k: int| 0 <= k < order@.len() ==> order@[k] as int == plan[k]
                &&& forall|i: int| 0 <= i < old(self).items@.len() ==> #[trigger] final(self).items@[i] == (GTabbarItem {
                    disabled: if plan.contains(i) { old(self).disabled } else { old(self).items@[i].disabled },
                    ..old(self).items@[i]
                })
            }),
    {
        self.scoped = true;
        if !self.visible {
            return Vec::new();
        }
        let ghost orig = self.items@;
        let mut vis: Vec<bool> = Vec::new();
        let mut i: usize = 0;
        while i < self.items.len()
            invariant
                i <= self.items@.len(),
                vis@ == Seq::new(i as nat, |k: int| self.items@[k].visible),
            decreases self.items.len() - i,
        {
            vis.push(self.items[i].visible);
            assert(vis@ =~= Seq::new((i + 1) as nat, |k: int| self.items@[k].visible));
            i = i + 1;
        }
        let order = draw_order(&self.ids, &vis, defers);
        let ghost plan = draw_plan(self.ids@, vis@, defers@);
        proof {
            crate::children::lemma_draw_plan_in_range(self.ids@, vis@, defers@);
        }
        let disabled = self.disabled;
        let mut k: usize = 0;
        while k < order.len()
            invariant
                k <= order@.len(),
                self.items@.len() == orig.len(),
                defers@.len() == orig.len(),
                vis@.len() == orig.len(),
                self.disabled == disabled,
                tabbar_frame((GTabbar { scoped: true, ..*old(self) }), *self),
                self.active == old(self).active,
                order@.len() == plan.len(),
                forall|j: int| 0 <= j < order@.len() ==> order@[j] as int == plan[j],
                forall|j: int| 0 <= j < plan.len() ==> 0 <= #[trigger] plan[j] < orig.len(),
                forall|i: int| 0 <= i < orig.len() ==> #[trigger] self.items@[i] == (GTabbarItem {
                    disabled: if plan.take(k as int).contains(i) { disabled } else { orig[i].disabled },
                    ..orig[i]
                }),
            decreases order.len() - k,
        {
            let at = order[k];
            proof {
                assert(plan[k as int] == at as int);
            }
            self.items[at].disabled = disabled;
            proof {
                assert forall|i: int| 0 <= i < orig.len() implies #[trigger] self.items@[i] == (GTabbarItem {
                    disabled: if plan.take(k + 1).contains(i) { disabled } else { orig[i].disabled },
                    ..orig[i]
                }) by {
                    assert(plan.take(k + 1) =~= plan.take(k as int).push(plan[k as int]));
                    if i == at as int {
                        assert(plan.take(k + 1)[k as int] == i);
                    } else {
                        if plan.take(k + 1).contains(i) {
                            let q = choose|q: int| 0 <= q < k + 1 && #[trigger] plan.take(k + 1)[q] == i;
                            assert(q < k);
                            assert(plan.take(k as int)[q] == i);
                        }
                        if plan.take(k as int).contains(i) {
                            let q = choose|q: int| 0 <= q < k && #[trigger] plan.take(k as int)[q] == i;
                            assert(plan.take(k + 1)[q] == i);
                        }
                    }
                }
            }
            k = k + 1;
        }
        proof {
            assert(plan.take(plan.len() as int) =~= plan);
            assert(vis@ =~= Seq::new(orig.len(), |i: int| orig[i].visible));
        }
        order
    }

    /// Turns on the tab at `index` and off every other, each reporting its
    /// own change; the active value becomes the value of the tab at `index`
    /// where there is one, and is kept otherwise.
    pub fn set_active_index(&mut self, index: usize) -> (effects: Vec<Vec<TabbarItemEffect>>)
        ensures
            tabbar_frame(*old(self), *final(self)),
            final(self).items@.len() == old(self).items@.len(),
            effects@.len() == old(self).items@.len(),
            forall|i: int| 0 <= i < old(self).items@.len() ==>
                (#[trigger] final(self).items@[i], effects@[i]@) == tab_toggle(old(self).items@[i], i == index, false, false),
            index < old(self).items@.len() ==> final(self).active == Some(old(self).items@[index as int].value),
            index >= old(self).items@.len() ==> final(self).active == old(self).active,
    {
        let ghost orig = self.items@;
        let mut found: Option<String> = None;
        let mut effects: Vec<Vec<TabbarItemEffect>> = Vec::new();
        let mut i: usize = 0;
        while i < self.items.len()
            invariant
                tabbar_frame(*old(self), *self),
                self.items@.len() == orig.len(),
                i <= orig.len(),
                self.active == old(self).active,
                effects@.len() == i,
                forall|j: int| 0 <= j < i ==> (#[trigger] self.items@[j], effects@[j]@) == tab_toggle(orig[j], j == index, false, false),
                forall|j: int| i <= j < orig.len() ==> #[trigger] self.items@[j] == orig[j],
                index < i ==> found == Some(orig[index as int].value),
                index >= i ==> found is None,
            decreases self.items.len() - i,
        {
            let on = i == index;
            if on {
                found = Some(self.items[i].value.clone());
            }
            let mut t = self.items.remove(i);
            let fx = t.toggle(on, false);
            self.items.insert(i, t);
            effects.push(fx);
            i = i + 1;
        }
        if found.is_some() {
            self.active = found;
        }
        effects
    }

    /// Gives the tabs their hits in order, each handing its click to the bar,
    /// until one hands a click; returns the effects of the tabs that took a
    /// hit and the position of the tab that handed a click.
    fn run_round(&mut self, hits: &Vec<Hit>) -> (r: (Vec<Vec<TabbarItemEffect>>, Option<usize>))
        requires
            hits@.len() == old(self).items@.len(),
        ensures
            tabbar_frame(*old(self), *final(self)),
            final(self).active == old(self).active,
            final(self).items@.len() == old(self).items@.len(),
            match r.1 {
                Some(k) => first_handed(old(self).items@, hits@) == Some(k as int) && k < old(self).items@.len()
                    && r.0@.len() == k + 1,
                None => first_handed(old(self).items@, hits@) is None && r.0@.len() == old(self).items@.len(),
            },
            forall|j: int| 0 <= j < r.0@.len() ==> (#[trigger] final(self).items@[j], r.0@[j]@) == ({
                let (t, fx, back) = tab_event(old(self).items@[j], hits@[j], true);
                (t, fx)
            }),
            forall|j: int| r.0@.len() <= j < old(self).items@.len() ==> #[trigger] final(self).items@[j] == old(self).items@[j],
    {
        let ghost orig = self.items@;
        let n = self.items.len();
        let mut round: Vec<Vec<TabbarItemEffect>> = Vec::new();
        let mut i: usize = 0;
        let mut handed: Option<usize> = None;
        while i < n && handed.is_none()
            invariant
                tabbar_frame(*old(self), *self),
                n == orig.len(),
                self.items@.len() == n,
                i <= n,
                hits@.len() == n,
                round@.len() == i,
                self.active == old(self).active,
                handed is None ==> first_handed(orig.take(i as int), hits@) is None,
                handed matches Some(k) ==> k + 1 == i && first_handed(orig, hits@) == Some(k as int),
                forall|j: int| 0 <= j < i ==> (#[trigger] self.items@[j], round@[j]@) == ({
                    let (t, fx, back) = tab_event(orig[j], hits@[j], true);
                    (t, fx)
                }),
                forall|j: int| i <= j < n ==> #[trigger] self.items@[j] == orig[j],
            decreases n - i,
        {
            proof {
                lemma_take_step(orig, i as int);
            }
            let mut t = self.items.remove(i);
            let (fx, back) = t.handle_event_mixin(hits[i], true);
            self.items.insert(i, t);
            round.push(fx);
            if back.is_some() {
                proof {
                    assert(first_handed(orig.take(i + 1), hits@) == Some(i as int));
                    lemma_first_handed_prefix(orig, hits@, i as int + 1);
                }
                handed = Some(i);
            }
            i = i + 1;
        }
        proof {
            if handed is None {
                assert(orig.take(n as int) =~= orig);
            }
        }
        (round, handed)
    }

    /// Handles an event with one hit per tab. A hidden bar ignores an event
    /// that only concerns visible widgets. Otherwise every tab without a
    /// value is named by its position; the tabs take their hits in order,
    /// handing their clicks to the bar, until one hands a click; the tabs
    /// after it get no hit. That tab's value becomes the bar's and turns
    /// exactly the tabs with that value on. Returns the change to report, the
    /// effects of the tabs that took a hit, and the effects of the switch of
    /// each tab.
    pub fn handle_event(&mut self, requires_visibility: bool, hits: &Vec<Hit>) -> (r: (Option<TabbarChanged>, Vec<Vec<TabbarItemEffect>>, Vec<Vec<TabbarItemEffect>>))
        requires
            hits@.len() == old(self).items@.len(),
        ensures
            tabbar_frame(*old(self), *final(self)),
            final(self).items@.len() == old(self).items@.len(),
            !old(self).visible && requires_visibility ==> r.0 is None && r.1@.len() == 0 && r.2@.len() == 0
                && final(self).active == old(self).active && final(self).items@ == old(self).items@,
            !(!old(self).visible && requires_visibility) ==> ({
                let n = old(self).items@.len();
                let named = Seq::new(n, |j: int| GTabbarItem { value: final(self).items@[j].value, ..old(self).items@[j] });
                &&& forall|j: int| 0 <= j < n ==> (#[trigger] final(self).items@[j]).value@ == indexed_value(old(self).items@[j].value@, j)
                &&& match first_handed(named, hits@) {
                    None => {
                        &&& r.0 is None
                        &&& r.2@.len() == 0
                        &&& final(self).active == old(self).active
                        &&& r.1@.len() == n
                        &&& forall|j: int| 0 <= j < n ==> (#[trigger] final(self).items@[j], r.1@[j]@) == ({
                            let (t, fx, back) = tab_event(named[j], hits@[j], true);
                            (t, fx)
                        })
                    },
                    Some(i) => {
                        let v = named[i].value;
                        &&& r.0 == Some(TabbarChanged { value: Some(v), index: i as usize })
                        &&& final(self).active == Some(v)
                        &&& r.1@.len() == i + 1
                        &&& forall|j: int| 0 <= j <= i ==> #[trigger] r.1@[j]@ == tab_event(named[j], hits@[j], true).1
                        &&& r.2@.len() == n
                        &&& forall|j: int| 0 <= j < n ==> {
                            let after = if j <= i { tab_event(named[j], hits@[j], true).0 } else { named[j] };
                            (#[trigger] final(self).items@[j], r.2@[j]@) == tab_toggle(after, after.value@ == v@, false, true)
                        }
                    },
                }
            }),
    {
        if !self.visible && requires_visibility {
            return (None, Vec::new(), Vec::new());
        }
        let ghost orig = self.items@;
        let _ = self.fill_values();
        let ghost filled = self.items@;
        let (round, handed) = self.run_round(hits);
        let ghost after_round = self.items@;
        proof {
            assert forall|j: int| 0 <= j < orig.len() implies #[trigger] after_round[j].value == filled[j].value by {
                if j < round@.len() {
                    lemma_tab_event_keeps_value(filled[j], hits@[j], true);
                }
            }
        }
        match handed {
            None => {
                proof {
                    let named = Seq::new(orig.len(), |j: int| GTabbarItem { value: self.items@[j].value, ..orig[j] });
                    assert(named =~= filled);
                }
                (None, round, Vec::new())
            },
            Some(k) => {
                let v = self.items[k].value.clone();
                proof {
                    lemma_tab_event_keeps_value(filled[k as int], hits@[k as int], true);
                }
                let fx = self.toggle(Some(v.clone()), false);
                proof {
                    let named = Seq::new(orig.len(), |j: int| GTabbarItem { value: self.items@[j].value, ..orig[j] });
                    assert forall|j: int| 0 <= j < orig.len() implies #[trigger] named[j] == filled[j] by {
                        assert(self.items@[j].value@ == indexed_value(after_round[j].value@, j));
                        lemma_decimal_nonempty(j as nat);
                        assert(filled[j].value@.len() > 0);
                        lemma_tab_toggle_keeps_value(
                            GTabbarItem { value: self.items@[j].value, ..after_round[j] },
                            self.items@[j].value@ == v@, false, true,
                        );
                    }
                    assert(named =~= filled);
                }
                (Some(TabbarChanged { value: Some(v), index: k }), round, fx)
            },
        }
    }
}

/// A tab keeps its value through an event, and the click it hands carries it.
pub proof fn lemma_tab_event_keeps_value(t: GTabbarItem, hit: Hit, mixin: bool)
    ensures
        tab_event(t, hit, mixin).0.value == t.value,
        tab_event(t, hit, mixin).2 matches Some(c) ==> c.value == t.value,
{
}

/// A tab keeps its value when its bar turns it on or off.
pub proof fn lemma_tab_toggle_keeps_value(t: GTabbarItem, active: bool, init: bool, mixin: bool)
    ensures
        tab_toggle(t, active, init, mixin).0.value == t.value,
{
}

proof fn lemma_first_handed_prefix(tabs: Seq<GTabbarItem>, hits: Seq<Hit>, k: int)
    requires
        0 <= k <= tabs.len(),
        first_handed(tabs.take(k), hits) is Some,
    ensures
        first_handed(tabs, hits) == first_handed(tabs.take(k), hits),
    decreases tabs.len() - k,
{
    if k < tabs.len() {
        lemma_take_step(tabs, k);
        lemma_first_handed_prefix(tabs, hits, k + 1);
    } else {
        assert(tabs.take(k) =~= tabs);
    }
}

/// After a group's active value is set, no two members with different
/// values are both active; where the values are distinct, one member at most
/// is active.
pub proof fn lemma_toggle_exclusive(m: Seq<(Seq<char>, bool)>, v: Seq<char>)
    requires
        only_value_active(m, v),
        forall|i: int, j: int| 0 <= i < m.len() && 0 <= j < m.len() && i != j ==> m[i].0 != m[j].0,
    ensures
        active_count(m) <= 1,
    decreases m.len(),
{
    if m.len() > 0 {
        let d = m.drop_last();
        assert(only_value_active(d, v)) by {
            assert forall|i: int| #![trigger d[i]] 0 <= i < d.len() implies (d[i].1 <==> d[i].0 == v) by {
                assert(m[i] == d[i]);
            }
        }
        lemma_toggle_exclusive(d, v);
        if m.last().1 {
            lemma_none_active(d, v);
        }
    }
}

proof fn lemma_none_active(m: Seq<(Seq<char>, bool)>, v: Seq<char>)
    requires
        only_value_active(m, v),
        forall|i: int| 0 <= i < m.len() ==> m[i].0 != v,
    ensures
        active_count(m) == 0,
    decreases m.len(),
{
    if m.len() > 0 {
        let d = m.drop_last();
        assert(m.last() == m[m.len() - 1]);
        assert(only_value_active(d, v)) by {
            assert forall|i: int| #![trigger d[i]] 0 <= i < d.len() implies (d[i].1 <==> d[i].0 == v) by {
                assert(m[i] == d[i]);
            }
        }
        lemma_none_active(d, v);
    }
}

/// Turning on the member at a position and off every other leaves exactly
/// one member active.
pub proof fn lemma_set_active_index_single(m: Seq<(Seq<char>, bool)>, index: int)
    requires
        0 <= index < m.len(),
        forall|i: int| #![trigger m[i]] 0 <= i < m.len() ==> (m[i].1 <==> i == index),
    ensures
        active_count(m) == 1,
    decreases m.len(),
{
    let d = m.drop_last();
    if index == m.len() - 1 {
        lemma_count_zero_when_inactive(d);
    } else {
        assert forall|i: int| #![trigger d[i]] 0 <= i < d.len() implies (d[i].1 <==> i == index) by {
            assert(m[i] == d[i]);
        }
        lemma_set_active_index_single(d, index);
        assert(!m[m.len() - 1].1);
    }
}

proof fn lemma_count_zero_when_inactive(m: Seq<(Seq<char>, bool)>)
    requires
        forall|i: int| #![trigger m[i]] 0 <= i < m.len() ==> !m[i].1,
    ensures
        active_count(m) == 0,
    decreases m.len(),
{
    if m.len() > 0 {
        let d = m.drop_last();
        assert forall|i: int| #![trigger d[i]] 0 <= i < d.len() implies !d[i].1 by {
            assert(m[i] == d[i]);
        }
        lemma_count_zero_when_inactive(d);
        assert(!m[m.len() - 1].1);
    }
}

/// After a radio group's active value is set, exactly the radios with that
/// value are active.
pub proof fn lemma_radio_toggle_only_value(rs: Seq<GRadio>, v: Seq<char>)
    requires
        forall|i: int| 0 <= i < rs.len() ==> (#[trigger] rs[i]).active == (rs[i].value@ == v),
    ensures
        only_value_active(radio_members(rs), v),
{
}

/// A tab that its bar turned on or off is active exactly as the bar asked,
/// and keeps its value.
pub proof fn lemma_tab_toggle_sets_active(t: GTabbarItem, on: bool, init: bool, mixin: bool)
    ensures
        tab_toggle(t, on, init, mixin).0.active == on,
        tab_toggle(t, on, init, mixin).0.value == t.value,
{
}

/// After a bar's active value is set, exactly the tabs with that value are active.
pub proof fn lemma_tab_toggle_only_value(ts: Seq<GTabbarItem>, v: Seq<char>)
    requires
        forall|i: int| 0 <= i < ts.len() ==> (#[trigger] ts[i]).active == (ts[i].value@ == v),
    ensures
        only_value_active(tab_members(ts), v),
{
}

/// Where the tabs' ids are distinct and a live update lists distinct ids that
/// the tabs have, the update can be applied, and the bar's tabs end up under
/// exactly the listed ids, in the listed order.
pub proof fn lemma_tabbar_update_follows_order(b: GTabbar)
    requires
        b.ids@.len() == b.items@.len(),
        b.ids@.no_duplicates(),
        b.live_update_order@.no_duplicates(),
        forall|k: int| 0 <= k < b.live_update_order@.len() ==> b.ids@.contains(#[trigger] b.live_update_order@[k]),
    ensures
        reorder_run(zip_ids(b.ids@, b.items@), b.live_update_order@) is Some,
        tabs_after_update(b, ApplyFrom::UpdateFromDoc).0 == b.live_update_order@,
{
    let z = zip_ids(b.ids@, b.items@);
    assert(ids_of(z) =~= b.ids@);
    crate::children::lemma_reorder_follows_order(z, b.live_update_order@);
}

} // verus!
