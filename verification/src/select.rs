//! The select: a field that opens a menu of options and shows the one that
//! was chosen, and the items of that menu.

use vstd::prelude::*;
use crate::popup::PopupState;
use crate::text::is_named;
use crate::children::{apply_plan, child_ids, draw_order, draw_plan, ids_of, ApplyFrom, ApplyPlan};
use crate::state::{ComponentState, LabelState, Style, SvgState, ViewState};
use crate::widget::{
    disabled_effects, disabled_state, emit, handle_disabled, opening, opening_effects, push_effect,
    push_emit, push_switch, switch_effects, switched, Effect, Hit, Track,
};

verus! {

/// The state of a select and of the items of its menu.
#[derive(Clone, Copy, Debug, PartialEq, Eq, Hash)]
pub enum SelectState {
    Basic,
    Hover,
    Active,
    Disabled,
}

impl ComponentState for SelectState {
    open spec fn spec_is_disabled(&self) -> bool {
        *self is Disabled
    }

    fn is_disabled(&self) -> (r: bool) {
        match self {
            SelectState::Disabled => true,
            _ => false,
        }
    }
}

impl SelectState {
    /// The animator track whose values show the state.
    pub open spec fn spec_track(self) -> Track {
        match self {
            SelectState::Basic => Track::HoverOff,
            SelectState::Hover => Track::HoverOn,
            SelectState::Active => Track::HoverActive,
            SelectState::Disabled => Track::HoverDisabled,
        }
    }

    /// The animator track whose values show the state.
    pub fn track(&self) -> (t: Track)
        ensures
            t == self.spec_track(),
    {
        match self {
            SelectState::Basic => Track::HoverOff,
            SelectState::Hover => Track::HoverOn,
            SelectState::Active => Track::HoverActive,
            SelectState::Disabled => Track::HoverDisabled,
        }
    }

    /// The state the select's views show.
    pub open spec fn spec_to_view(self) -> ViewState {
        match self {
            SelectState::Basic => ViewState::Basic,
            SelectState::Hover => ViewState::Hover,
            SelectState::Active => ViewState::Pressed,
            SelectState::Disabled => ViewState::Disabled,
        }
    }

    /// The state the select's icons show.
    pub open spec fn spec_to_svg(self) -> SvgState {
        match self {
            SelectState::Basic => SvgState::Basic,
            SelectState::Hover => SvgState::Hover,
            SelectState::Active => SvgState::Pressed,
            SelectState::Disabled => SvgState::Disabled,
        }
    }
}

impl From<SelectState> for ViewState {
    fn from(value: SelectState) -> (r: ViewState) {
        match value {
            SelectState::Basic => ViewState::Basic,
            SelectState::Hover => ViewState::Hover,
            SelectState::Active => ViewState::Pressed,
            SelectState::Disabled => ViewState::Disabled,
        }
    }
}

impl vstd::std_specs::convert::FromSpecImpl<SelectState> for ViewState {
    open spec fn obeys_from_spec() -> bool {
        true
    }

    open spec fn from_spec(v: SelectState) -> ViewState {
        v.spec_to_view()
    }
}

impl From<SelectState> for SvgState {
    fn from(value: SelectState) -> (r: SvgState) {
        match value {
            SelectState::Basic => SvgState::Basic,
            SelectState::Hover => SvgState::Hover,
            SelectState::Active => SvgState::Pressed,
            SelectState::Disabled => SvgState::Disabled,
        }
    }
}

impl vstd::std_specs::convert::FromSpecImpl<SelectState> for SvgState {
    open spec fn obeys_from_spec() -> bool {
        true
    }

    open spec fn from_spec(v: SelectState) -> SvgState {
        v.spec_to_svg()
    }
}

/// The parts of a select that carry a style of their own.
#[derive(Clone, Copy, Debug, PartialEq, Eq, Hash)]
pub enum SelectPart {
    Container,
    Select,
    Prefix,
    Suffix,
}

/// The parts of an item of a select's menu that carry a style of their own.
#[derive(Clone, Copy, Debug, PartialEq, Eq, Hash)]
pub enum SelectItemPart {
    Container,
    Icon,
    Text,
    Suffix,
}

/// The styles of a select, one per state.
#[derive(Clone, Copy, Debug, PartialEq, Eq)]
pub struct SelectStyle<B> {
    pub basic: B,
    pub hover: B,
    pub active: B,
    pub disabled: B,
}

impl<B> Style for SelectStyle<B> {
    type State = SelectState;
    type Basic = B;

    open spec fn spec_get(&self, state: SelectState) -> B {
        match state {
            SelectState::Basic => self.basic,
            SelectState::Hover => self.hover,
            SelectState::Active => self.active,
            SelectState::Disabled => self.disabled,
        }
    }

    fn get(&self, state: SelectState) -> (r: &B) {
        match state {
            SelectState::Basic => &self.basic,
            SelectState::Hover => &self.hover,
            SelectState::Active => &self.active,
            SelectState::Disabled => &self.disabled,
        }
    }

    fn get_mut(&mut self, state: SelectState) -> (r: &mut B) {
        match state {
            SelectState::Basic => &mut self.basic,
            SelectState::Hover => &mut self.hover,
            SelectState::Active => &mut self.active,
            SelectState::Disabled => &mut self.disabled,
        }
    }
}

/// The value a select changed to.
#[derive(Clone, Debug, PartialEq, Eq)]
pub struct SelectChangedEvent {
    pub value: String,
}

/// The events a select sends.
#[derive(Clone, Debug, PartialEq, Eq)]
pub enum SelectEvent {
    Changed(SelectChangedEvent),
}

/// The effects a select asks for.
pub type SelectEffect = Effect<SelectState, SelectEvent>;

/// What the open menu of a select reported for an event: the option that was
/// chosen (its position and value), and, for a press of a mouse button,
/// whether it was inside the menu.
#[derive(Clone, Debug, PartialEq, Eq)]
pub struct OptionsReport {
    pub changed: Option<(usize, String)>,
    pub mouse_down: Option<bool>,
}

/// A select: what its event handling reads and changes.
#[derive(Clone, Debug, PartialEq, Eq)]
pub struct GSelect {
    pub visible: bool,
    pub disabled: bool,
    pub animation_open: bool,
    /// Whether the select has been drawn into a scope.
    pub scoped: bool,
    /// Whether the menu is open.
    pub open: bool,
    /// The value of the chosen option.
    pub value: String,
    /// The position of the chosen option.
    pub selected: u32,
    pub state: SelectState,
}

/// What a select does with an event: the effects it asks for, and the option
/// whose look the select's field takes over, if one was chosen.
pub struct SelectStep {
    pub effects: Vec<SelectEffect>,
    pub show_option: Option<usize>,
}

/// Closing the menu, unless it is closed already or the press was inside it:
/// whether it is open after, and the effects.
pub open spec fn select_close(open: bool, is_in: bool) -> (bool, Seq<SelectEffect>) {
    if !open || is_in {
        (open, Seq::empty())
    } else {
        (false, seq![Effect::Redraw, Effect::SweepUnlock])
    }
}

/// Opening the menu, unless it is open already: the effects.
pub open spec fn select_open_effects(open: bool) -> Seq<SelectEffect> {
    if open { Seq::empty() } else { seq![Effect::Redraw, Effect::SweepLock] }
}

/// What an open select does with its menu's report: the select after it,
/// the effects, the option to show, and whether the event ends there.
pub open spec fn select_report(s: GSelect, rep: OptionsReport) -> (GSelect, Seq<SelectEffect>, Option<usize>, bool) {
    let (s1, fx1, show) = match rep.changed {
        Some((i, v)) => (
            GSelect { value: v, selected: i as u32, ..s },
            seq![Effect::Emit(SelectEvent::Changed(SelectChangedEvent { value: v })), Effect::Redraw],
            Some(i),
        ),
        None => (s, Seq::empty(), None),
    };
    match rep.mouse_down {
        Some(is_in) => {
            let st = switched(s1.animation_open, s1.state, SelectState::Basic);
            let (open, fx2) = select_close(s1.open, is_in);
            (GSelect { state: st, open, ..s1 }, fx1 + switch_effects(s1.animation_open, false) + fx2, show, true)
        },
        None => (s1, fx1, show, false),
    }
}

/// What a select that is not disabled does with a hit on its field.
pub open spec fn select_hit(s: GSelect, hit: Hit) -> (GSelect, Seq<SelectEffect>) {
    let anim = s.animation_open;
    match hit {
        Hit::FingerHoverIn => (
            GSelect { state: switched(anim, s.state, SelectState::Hover), ..s },
            seq![Effect::Cursor(s.state)] + switch_effects(anim, false),
        ),
        Hit::FingerHoverOut => (
            GSelect { state: switched(anim, s.state, SelectState::Basic), ..s },
            seq![Effect::DefaultCursor] + switch_effects(anim, false),
        ),
        Hit::FingerUp(e) => if e.is_over && e.has_hovers {
            (
                GSelect { state: switched(anim, s.state, SelectState::Active), open: true, ..s },
                switch_effects(anim, false) + select_open_effects(s.open),
            )
        } else {
            (s, Seq::empty())
        },
        _ => (s, Seq::empty()),
    }
}

/// The state a select is drawn in: disabled, active while its menu is open,
/// basic otherwise.
pub open spec fn select_render_state(disabled: bool, open: bool) -> SelectState {
    if disabled {
        SelectState::Disabled
    } else if open {
        SelectState::Active
    } else {
        SelectState::Basic
    }
}

impl GSelect {
    fn take_report(&mut self, rep: OptionsReport, effects: &mut Vec<SelectEffect>) -> (r: (Option<usize>, bool))
        ensures
            ({
                let (s, fx, show, stop) = select_report(*old(self), rep);
                *final(self) == s && final(effects)@ == old(effects)@ + fx && r == (show, stop)
            }),
    {
        let ghost start = effects@;
        let mut show: Option<usize> = None;
        match rep.changed {
            Some((i, v)) => {
                self.value = v.clone();
                push_effect(effects, Effect::Emit(SelectEvent::Changed(SelectChangedEvent { value: v })));
                self.selected = i as u32;
                show = Some(i);
                push_effect(effects, Effect::Redraw);
            },
            None => {},
        }
        let ghost mid = effects@;
        let stop = match rep.mouse_down {
            Some(is_in) => {
                let anim = self.animation_open;
                push_switch(effects, anim, false);
                if anim {
                    self.state = SelectState::Basic;
                }
                if self.open && !is_in {
                    self.open = false;
                    push_effect(effects, Effect::Redraw);
                    push_effect(effects, Effect::SweepUnlock);
                }
                true
            },
            None => false,
        };
        proof {
            let (s, fx, sh, st) = select_report(*old(self), rep);
            assert(effects@ =~= start + fx);
        }
        (show, stop)
    }

    /// Handles a hit on the field of a select that is not disabled.
    pub fn handle_hit(&mut self, hit: Hit) -> (effects: Vec<SelectEffect>)
        ensures
            (*final(self), effects@) == select_hit(*old(self), hit),
    {
        let mut effects: Vec<SelectEffect> = Vec::new();
        let anim = self.animation_open;
        match hit {
            Hit::FingerHoverIn => {
                push_effect(&mut effects, Effect::Cursor(self.state));
                push_switch(&mut effects, anim, false);
                if anim {
                    self.state = SelectState::Hover;
                }
            },
            Hit::FingerHoverOut => {
                push_effect(&mut effects, Effect::DefaultCursor);
                push_switch(&mut effects, anim, false);
                if anim {
                    self.state = SelectState::Basic;
                }
            },
            Hit::FingerUp(e) => {
                if e.is_over && e.has_hovers {
                    push_switch(&mut effects, anim, false);
                    if anim {
                        self.state = SelectState::Active;
                    }
                    self.open_inner(&mut effects);
                }
            },
            _ => {},
        }
        proof {
            let (s, fx) = select_hit(*old(self), hit);
            assert(effects@ =~= fx);
        }
        effects
    }

    /// Opens the menu unless it is open already.
    pub fn open_inner(&mut self, effects: &mut Vec<SelectEffect>)
        ensures
            *final(self) == (GSelect { open: true, ..*old(self) }),
            final(effects)@ == old(effects)@ + select_open_effects(old(self).open),
    {
        let ghost start = effects@;
        if self.open {
            assert(effects@ =~= start + select_open_effects(old(self).open));
            return;
        }
        self.open = true;
        push_effect(effects, Effect::Redraw);
        push_effect(effects, Effect::SweepLock);
        assert(effects@ =~= start + select_open_effects(old(self).open));
    }

    /// Closes the menu unless it is closed already or the press was inside it.
    pub fn close_inner(&mut self, is_in: bool, effects: &mut Vec<SelectEffect>)
        ensures
            *final(self) == (GSelect { open: select_close(old(self).open, is_in).0, ..*old(self) }),
            final(effects)@ == old(effects)@ + select_close(old(self).open, is_in).1,
    {
        let ghost start = effects@;
        if !self.open || is_in {
            assert(effects@ =~= start + select_close(old(self).open, is_in).1);
            return;
        }
        self.open = false;
        push_effect(effects, Effect::Redraw);
        push_effect(effects, Effect::SweepUnlock);
        assert(effects@ =~= start + select_close(old(self).open, is_in).1);
    }

    /// Handles an event on a select. An invisible select ignores it; a
    /// visible one writes its animator; a disabled one only shows its
    /// disabled state on a hover. An enabled select with an open menu first
    /// takes the menu's report: a chosen option becomes its value and is
    /// announced, and a press of a mouse button closes the menu (unless it
    /// was inside it) and ends the event. Then the select reacts to the hit
    /// on its field: a hover shows its hover state, a release over it opens
    /// the menu.
    pub fn handle_event(&mut self, hit: Hit, report: Option<OptionsReport>) -> (step: SelectStep)
        ensures
            !old(self).visible ==> *final(self) == *old(self) && step.effects@.len() == 0 && step.show_option is None,
            old(self).visible && old(self).disabled ==>
                *final(self) == (GSelect { state: disabled_state(old(self).state, SelectState::Disabled, hit), ..*old(self) })
                && step.effects@ == opening_effects::<SelectState, SelectEvent>() + disabled_effects::<SelectState, SelectEvent>(SelectState::Disabled, hit)
                && step.show_option is None,
            old(self).visible && !old(self).disabled ==> match report {
                Some(rep) if old(self).open => {
                    let (s1, fx1, show, stop) = select_report(*old(self), rep);
                    if stop {
                        *final(self) == s1 && step.effects@ == opening_effects::<SelectState, SelectEvent>() + fx1
                            && step.show_option == show
                    } else {
                        let (s2, fx2) = select_hit(s1, hit);
                        *final(self) == s2 && step.effects@ == opening_effects::<SelectState, SelectEvent>() + fx1 + fx2
                            && step.show_option == show
                    }
                },
                _ => {
                    let (s2, fx2) = select_hit(*old(self), hit);
                    *final(self) == s2 && step.effects@ == opening_effects::<SelectState, SelectEvent>() + fx2
                        && step.show_option is None
                },
            },
    {
        if !self.visible {
            return SelectStep { effects: Vec::new(), show_option: None };
        }
        let mut effects = opening();
        if self.disabled {
            self.state = handle_disabled(self.state, SelectState::Disabled, hit, &mut effects);
            return SelectStep { effects, show_option: None };
        }
        let mut show: Option<usize> = None;
        if self.open {
            match report {
                Some(rep) => {
                    let (sh, stop) = self.take_report(rep, &mut effects);
                    show = sh;
                    if stop {
                        return SelectStep { effects, show_option: show };
                    }
                },
                None => {},
            }
        }
        let mut more = self.handle_hit(hit);
        effects.append(&mut more);
        SelectStep { effects, show_option: show }
    }

    /// Draws the select: its slots (prefix 0, item 1, suffix 2) in the order
    /// `draw_plan` gives for which are visible and which have their walk
    /// deferred, then its menu where it is open and has one. A hidden select
    /// draws nothing and gets no scope; drawing gives a visible one the scope
    /// its events need.
    pub fn draw_walk(&mut self, visible: &Vec<bool>, defers: &Vec<bool>, has_options: bool) -> (r: (Vec<usize>, bool))
        requires
            visible@.len() == 3,
            defers@.len() == 3,
        ensures
            *final(self) == (GSelect { scoped: old(self).scoped || old(self).visible, ..*old(self) }),
            !old(self).visible ==> r.0@.len() == 0 && !r.1,
            old(self).visible ==> r.1 == (old(self).open && has_options)
                && r.0@.len() == draw_plan(seq![0u64, 1u64, 2u64], visible@, defers@).len()
                && forall|k: int| 0 <= k < r.0@.len() ==> r.0@[k] as int == draw_plan(seq![0u64, 1u64, 2u64], visible@, defers@)[k],
    {
        if !self.visible {
            return (Vec::new(), false);
        }
        self.scoped = true;
        let ids: Vec<u64> = vec![0u64, 1u64, 2u64];
        assert(ids@ =~= seq![0u64, 1u64, 2u64]);
        let order = draw_order(&ids, visible, defers);
        (order, self.open && has_options)
    }

    /// Puts the select in the state it is drawn in.
    pub fn render(&mut self)
        ensures
            *final(self) == (GSelect { state: select_render_state(old(self).disabled, old(self).open), ..*old(self) }),
    {
        self.state = if self.disabled {
            SelectState::Disabled
        } else if self.open {
            SelectState::Active
        } else {
            SelectState::Basic
        };
    }
}

/// What a click on an item of a menu reports: whether it is active, and its value.
#[derive(Clone, Debug, PartialEq, Eq)]
pub struct SelectItemClicked {
    pub active: bool,
    pub value: String,
}

/// The events an item of a menu sends.
#[derive(Clone, Debug, PartialEq, Eq)]
pub enum SelectItemEvent {
    HoverIn,
    HoverOut,
    Clicked(SelectItemClicked),
}

/// The effects an item of a menu asks for.
pub type SelectItemEffect = Effect<SelectState, SelectItemEvent>;

/// An item of a select's menu: what its event handling reads and changes.
#[derive(Clone, Debug, PartialEq, Eq)]
pub struct GSelectItem {
    pub visible: bool,
    pub disabled: bool,
    pub grab_key_focus: bool,
    pub event_open: bool,
    pub animation_open: bool,
    /// Whether the item has been drawn into a scope, which its events need.
    pub scoped: bool,
    pub active: bool,
    pub value: String,
    pub state: SelectState,
}

/// Whether an item's events reach its listeners.
pub open spec fn item_open(s: GSelectItem) -> bool {
    s.event_open && s.scoped
}

/// What an item of a menu does with a hit handed on by its menu: the item
/// after it, its effects, and the click it hands back to the menu. An active
/// item ignores every hit.
pub open spec fn item_hit(s: GSelectItem, hit: Hit) -> (GSelectItem, Seq<SelectItemEffect>, Option<SelectItemEvent>) {
    let anim = s.animation_open;
    let open = item_open(s);
    if s.active {
        (s, Seq::empty(), None)
    } else {
        match hit {
            Hit::FingerDown => (s, if s.grab_key_focus { seq![Effect::KeyFocus] } else { Seq::empty() }, None),
            Hit::FingerHoverIn => (
                GSelectItem { state: switched(anim, s.state, SelectState::Hover), ..s },
                seq![Effect::Cursor(s.state)] + switch_effects(anim, false) + emit(open, SelectItemEvent::HoverIn),
                None,
            ),
            Hit::FingerHoverOut => (
                GSelectItem { state: switched(anim, s.state, SelectState::Basic), ..s },
                switch_effects(anim, false) + emit(open, SelectItemEvent::HoverOut),
                None,
            ),
            Hit::FingerUp(e) => (
                GSelectItem { active: true, state: switched(anim, s.state, SelectState::Active), ..s },
                switch_effects(anim, false),
                if e.is_sweep { None } else { Some(SelectItemEvent::Clicked(SelectItemClicked { active: true, value: s.value })) },
            ),
            _ => (s, Seq::empty(), None),
        }
    }
}

/// What an item asks for after it was turned on or off by its menu.
pub open spec fn item_toggle_effects(s: GSelectItem, active: bool, init: bool) -> Seq<SelectItemEffect> {
    (if init {
        Seq::empty()
    } else {
        seq![Effect::Animate(if active { Track::HoverActive } else { Track::HoverOff })]
    }) + emit(item_open(s), SelectItemEvent::Clicked(SelectItemClicked { active, value: s.value }))
}

impl GSelectItem {
    /// The click an item reports, where its events reach its listeners.
    pub fn active_clicked(&self) -> (e: Option<SelectItemEvent>)
        ensures
            e == (if item_open(*self) {
                Some(SelectItemEvent::Clicked(SelectItemClicked { active: self.active, value: self.value }))
            } else {
                None
            }),
    {
        if self.event_open && self.scoped {
            Some(SelectItemEvent::Clicked(SelectItemClicked { active: self.active, value: self.value.clone() }))
        } else {
            None
        }
    }

    /// Handles an event on an item by itself: an invisible item ignores it; a
    /// visible one writes its animator; a disabled one shows its disabled
    /// state on a hover; an enabled one leaves the hit to its menu.
    pub fn handle_event(&mut self, hit: Hit) -> (effects: Vec<SelectItemEffect>)
        ensures
            !old(self).visible ==> *final(self) == *old(self) && effects@.len() == 0,
            old(self).visible && old(self).disabled ==>
                *final(self) == (GSelectItem { state: disabled_state(old(self).state, SelectState::Disabled, hit), ..*old(self) })
                && effects@ == opening_effects::<SelectState, SelectItemEvent>() + disabled_effects::<SelectState, SelectItemEvent>(SelectState::Disabled, hit),
            old(self).visible && !old(self).disabled ==> *final(self) == *old(self)
                && effects@ == opening_effects::<SelectState, SelectItemEvent>(),
    {
        if !self.visible {
            return Vec::new();
        }
        let mut effects = opening();
        if self.disabled {
            self.state = handle_disabled(self.state, SelectState::Disabled, hit, &mut effects);
        }
        effects
    }

    /// Handles a hit that the item's menu hands on; a release over the item
    /// makes it active and, unless it ended a sweep, hands a click back.
    pub fn handle_event_with_action(&mut self, hit: Hit) -> (r: (Vec<SelectItemEffect>, Option<SelectItemEvent>))
        ensures
            ({
                let (s, fx, back) = item_hit(*old(self), hit);
                *final(self) == s && r.0@ == fx && r.1 == back
            }),
    {
        let mut effects: Vec<SelectItemEffect> = Vec::new();
        if self.active {
            return (effects, None);
        }
        let anim = self.animation_open;
        let open = self.event_open && self.scoped;
        let mut back: Option<SelectItemEvent> = None;
        match hit {
            Hit::FingerDown => {
                if self.grab_key_focus {
                    push_effect(&mut effects, Effect::KeyFocus);
                }
            },
            Hit::FingerHoverIn => {
                push_effect(&mut effects, Effect::Cursor(self.state));
                push_switch(&mut effects, anim, false);
                if anim {
                    self.state = SelectState::Hover;
                }
                push_emit(&mut effects, open, SelectItemEvent::HoverIn);
            },
            Hit::FingerHoverOut => {
                push_switch(&mut effects, anim, false);
                if anim {
                    self.state = SelectState::Basic;
                }
                push_emit(&mut effects, open, SelectItemEvent::HoverOut);
            },
            Hit::FingerUp(e) => {
                self.active = true;
                if !e.is_sweep {
                    back = Some(SelectItemEvent::Clicked(SelectItemClicked { active: true, value: self.value.clone() }));
                }
                push_switch(&mut effects, anim, false);
                if anim {
                    self.state = SelectState::Active;
                }
            },
            _ => {},
        }
        proof {
            let (s, fx, b) = item_hit(*old(self), hit);
            assert(effects@ =~= fx);
        }
        (effects, back)
    }

    /// Turns the item on or off as its menu asks; `init` marks the first
    /// setting, which plays no animation.
    pub fn toggle(&mut self, active: bool, init: bool) -> (effects: Vec<SelectItemEffect>)
        ensures
            *final(self) == (GSelectItem {
                active,
                state: if active { SelectState::Active } else { SelectState::Basic },
                ..*old(self)
            }),
            effects@ == item_toggle_effects(*old(self), active, init),
    {
        self.active = active;
        self.state = if active { SelectState::Active } else { SelectState::Basic };
        let mut effects: Vec<SelectItemEffect> = Vec::new();
        if !init {
            push_effect(&mut effects, Effect::Animate(if active { Track::HoverActive } else { Track::HoverOff }));
        }
        let open = self.event_open && self.scoped;
        push_emit(&mut effects, open, SelectItemEvent::Clicked(SelectItemClicked { active, value: self.value.clone() }));
        assert(effects@ =~= item_toggle_effects(*old(self), active, init));
        effects
    }

    /// Puts the item in the state it is drawn in.
    pub fn render(&mut self)
        ensures
            *final(self) == (GSelectItem {
                state: if old(self).disabled {
                    SelectState::Disabled
                } else if old(self).active {
                    SelectState::Active
                } else {
                    SelectState::Basic
                },
                ..*old(self)
            }),
    {
        self.state = if self.disabled {
            SelectState::Disabled
        } else if self.active {
            SelectState::Active
        } else {
            SelectState::Basic
        };
    }
}

/// The menu of a select: its items under their ids and the order a live
/// update wrote them in.
pub struct GSelectOptions {
    pub visible: bool,
    pub children: Vec<(u64, GSelectItem)>,
    pub live_update_order: Vec<u64>,
}

impl GSelectOptions {
    /// Plans the application of a value of its document with id `id`.
    pub fn apply_value_instance(&mut self, from: ApplyFrom, is_instance_prop: bool, id: u64) -> (plan: ApplyPlan)
        ensures
            plan == apply_plan(ids_of(old(self).children@), from, is_instance_prop, id),
            final(self).children@ == old(self).children@,
            final(self).visible == old(self).visible,
            final(self).live_update_order@ == (if from == ApplyFrom::UpdateFromDoc && is_instance_prop {
                old(self).live_update_order@.push(id)
            } else {
                old(self).live_update_order@
            }),
    {
        let ids = child_ids(&self.children);
        crate::children::apply_value_instance(&ids, &mut self.live_update_order, from, is_instance_prop, id)
    }

    /// Adds an item made for a value of the document that no item had.
    pub fn push_child(&mut self, id: u64, item: GSelectItem)
        ensures
            final(self).children@ == old(self).children@.push((id, item)),
            final(self).live_update_order@ == old(self).live_update_order@,
            final(self).visible == old(self).visible,
    {
        self.children.push((id, item));
    }

    /// Hands an event on to every item in order, each with its own hit;
    /// returns the effects of each item.
    pub fn handle_event_with(&mut self, hits: &Vec<Hit>) -> (effects: Vec<Vec<SelectItemEffect>>)
        requires
            hits@.len() == old(self).children@.len(),
        ensures
            final(self).visible == old(self).visible,
            final(self).live_update_order@ == old(self).live_update_order@,
            final(self).children@.len() == old(self).children@.len(),
            effects@.len() == old(self).children@.len(),
            forall|i: int| 0 <= i < old(self).children@.len() ==> ({
                let before = old(self).children@[i].1;
                let after = #[trigger] final(self).children@[i];
                &&& after.0 == old(self).children@[i].0
                &&& !before.visible ==> after.1 == before && effects@[i]@.len() == 0
                &&& before.visible && before.disabled ==>
                    after.1 == (GSelectItem { state: disabled_state(before.state, SelectState::Disabled, hits@[i]), ..before })
                    && effects@[i]@ == opening_effects::<SelectState, SelectItemEvent>()
                        + disabled_effects::<SelectState, SelectItemEvent>(SelectState::Disabled, hits@[i])
                &&& before.visible && !before.disabled ==> after.1 == before
                    && effects@[i]@ == opening_effects::<SelectState, SelectItemEvent>()
            }),
    {
        let ghost orig = self.children@;
        let mut effects: Vec<Vec<SelectItemEffect>> = Vec::new();
        let mut i: usize = 0;
        while i < self.children.len()
            invariant
                self.children@.len() == orig.len(),
                hits@.len() == orig.len(),
                i <= orig.len(),
                effects@.len() == i,
                self.visible == old(self).visible,
                self.live_update_order@ == old(self).live_update_order@,
                forall|j: int| i <= j < orig.len() ==> #[trigger] self.children@[j] == orig[j],
                forall|j: int| 0 <= j < i ==> ({
                    let before = orig[j].1;
                    let after = #[trigger] self.children@[j];
                    &&& after.0 == orig[j].0
                    &&& !before.visible ==> after.1 == before && effects@[j]@.len() == 0
                    &&& before.visible && before.disabled ==>
                        after.1 == (GSelectItem { state: disabled_state(before.state, SelectState::Disabled, hits@[j]), ..before })
                        && effects@[j]@ == opening_effects::<SelectState, SelectItemEvent>()
                            + disabled_effects::<SelectState, SelectItemEvent>(SelectState::Disabled, hits@[j])
                    &&& before.visible && !before.disabled ==> after.1 == before
                        && effects@[j]@ == opening_effects::<SelectState, SelectItemEvent>()
                }),
            decreases self.children.len() - i,
        {
            let (id, mut item) = self.children.remove(i);
            let fx = item.handle_event(hits[i]);
            self.children.insert(i, (id, item));
            effects.push(fx);
            i = i + 1;
        }
        effects
    }
}

/// A release over the field of a select that is not disabled leaves its menu
/// open, and a press of a mouse button outside an open menu leaves it closed.
pub proof fn lemma_select_open_close(s: GSelect, hit: Hit, rep: OptionsReport)
    ensures
        (hit matches Hit::FingerUp(e) && e.is_over && e.has_hovers) ==> select_hit(s, hit).0.open,
        rep.mouse_down == Some(false) ==> !select_report(s, rep).0.open && select_report(s, rep).3,
{
}

/// A chosen option becomes the select's value and position, and is announced
/// with that value.
pub proof fn lemma_select_takes_choice(s: GSelect, rep: OptionsReport, i: usize, v: String)
    requires
        rep.changed == Some((i, v)),
    ensures
        select_report(s, rep).0.value == v,
        select_report(s, rep).0.selected == i as u32,
        select_report(s, rep).1[0] == Effect::<SelectState, SelectEvent>::Emit(SelectEvent::Changed(SelectChangedEvent { value: v })),
        select_report(s, rep).2 == Some(i),
{
}

/// An item of a menu that is active ignores every hit, and a release over an
/// item makes it active.
pub proof fn lemma_item_activation(s: GSelectItem, hit: Hit)
    ensures
        s.active ==> item_hit(s, hit).0 == s && item_hit(s, hit).2 is None,
        hit is FingerUp ==> item_hit(s, hit).0.active,
{
}

impl GSelectItem {
    /// Draws the item where it is visible, which gives it the scope its events
    /// need; a hidden item is not drawn and gets no scope. Returns whether it
    /// was drawn.
    pub fn draw_walk(&mut self) -> (drawn: bool)
        ensures
            drawn == old(self).visible,
            *final(self) == (GSelectItem { scoped: old(self).scoped || old(self).visible, ..*old(self) }),
    {
        if self.visible {
            self.scoped = true;
        }
        self.visible
    }
}

/// The state whose styles a block of the select's document sets, by the
/// block's name; a block under any other name sets none.
pub open spec fn select_named_state(name: Seq<char>) -> Option<SelectState> {
    if name == "basic"@ {
        Some(SelectState::Basic)
    } else if name == "hover"@ {
        Some(SelectState::Hover)
    } else if name == "active"@ {
        Some(SelectState::Active)
    } else if name == "disabled"@ {
        Some(SelectState::Disabled)
    } else {
        None
    }
}

impl GSelect {
    /// After a live update of its document, the select files the styles of each
    /// named block under the state the block names: the state for a block
    /// named `prefix`, if it names one.
    pub fn after_apply(prefix: &String) -> (r: Option<SelectState>)
        ensures
            r == select_named_state(prefix@),
    {
        if is_named(prefix, "basic") {
            Some(SelectState::Basic)
        } else if is_named(prefix, "hover") {
            Some(SelectState::Hover)
        } else if is_named(prefix, "active") {
            Some(SelectState::Active)
        } else if is_named(prefix, "disabled") {
            Some(SelectState::Disabled)
        } else {
            None
        }
    }
}

impl GSelectOptions {
    /// After a live update of its document, a menu files the styles of a
    /// block named `basic` under its one state; a block under any other name
    /// sets none.
    pub fn after_apply(prefix: &String) -> (r: Option<PopupState>)
        ensures
            r == (if prefix@ == "basic"@ { Some(PopupState::Basic) } else { None }),
    {
        if is_named(prefix, "basic") {
            Some(PopupState::Basic)
        } else {
            None
        }
    }
}

/// The state a select's text is shown in: disabled with the select, basic
/// otherwise.
pub open spec fn select_label(s: SelectState) -> LabelState {
    match s {
        SelectState::Disabled => LabelState::Disabled,
        _ => LabelState::Basic,
    }
}

impl From<SelectState> for LabelState {
    fn from(value: SelectState) -> (r: LabelState) {
        match value {
            SelectState::Basic | SelectState::Hover | SelectState::Active => LabelState::Basic,
            SelectState::Disabled => LabelState::Disabled,
        }
    }
}

impl vstd::std_specs::convert::FromSpecImpl<SelectState> for LabelState {
    open spec fn obeys_from_spec() -> bool {
        true
    }

    open spec fn from_spec(v: SelectState) -> LabelState {
        select_label(v)
    }
}

/// With its animation open, an enabled select shows hover while the pointer
/// is over its field and basic once the pointer has left it, whatever it
/// showed before; a pointer leaving it changes nothing else.
pub proof fn lemma_select_hover_states(s: GSelect)
    requires
        s.animation_open,
    ensures
        select_hit(s, Hit::FingerHoverIn).0.state == SelectState::Hover,
        select_hit(s, Hit::FingerHoverOut).0.state == SelectState::Basic,
        select_hit(s, Hit::FingerHoverOut).0 == (GSelect { state: SelectState::Basic, ..s }),
        select_hit(select_hit(s, Hit::FingerHoverIn).0, Hit::FingerHoverOut).0.state == SelectState::Basic,
{
}

/// With its animation open, a menu item that is not active shows hover while
/// the pointer is over it, basic once the pointer has left it, and active
/// once a finger was released on it; an active item keeps everything.
pub proof fn lemma_item_hit_states(s: GSelectItem, hit: Hit)
    requires
        s.animation_open,
    ensures
        !s.active && hit is FingerHoverIn ==> item_hit(s, hit).0.state == SelectState::Hover,
        !s.active && hit is FingerHoverOut ==> item_hit(s, hit).0.state == SelectState::Basic,
        !s.active && hit is FingerUp ==> item_hit(s, hit).0.state == SelectState::Active && item_hit(s, hit).0.active,
        s.active ==> item_hit(s, hit).0 == s,
{
}

} // verus!
