//! The tab of a tab bar: it turns active when it is clicked, and hands its
//! click to the bar that owns it.

use vstd::prelude::*;
use crate::text::is_named;
use crate::state::{ComponentState, SvgState, ViewState};
use crate::widget::{
    disabled_effects, disabled_state, emit, handle_disabled, opening, opening_effects, push_effect,
    push_emit, push_switch, switch_effects, switched, Effect, Hit, Track,
};

verus! {

/// The state of a tab.
#[derive(Clone, Copy, Debug, PartialEq, Eq, Hash)]
pub enum TabbarItemState {
    Basic,
    Hover,
    Active,
    Disabled,
}

impl ComponentState for TabbarItemState {
    open spec fn spec_is_disabled(&self) -> bool {
        *self is Disabled
    }

    fn is_disabled(&self) -> (r: bool) {
        match self {
            TabbarItemState::Disabled => true,
            _ => false,
        }
    }
}

impl TabbarItemState {
    /// The animator track whose values show the state.
    pub open spec fn spec_track(self) -> Track {
        match self {
            TabbarItemState::Basic => Track::HoverOff,
            TabbarItemState::Hover => Track::HoverOn,
            TabbarItemState::Active => Track::HoverActive,
            TabbarItemState::Disabled => Track::HoverDisabled,
        }
    }

    /// The animator track whose values show the state.
    pub fn track(&self) -> (t: Track)
        ensures
            t == self.spec_track(),
    {
        match self {
            TabbarItemState::Basic => Track::HoverOff,
            TabbarItemState::Hover => Track::HoverOn,
            TabbarItemState::Active => Track::HoverActive,
            TabbarItemState::Disabled => Track::HoverDisabled,
        }
    }

    /// The state the tab's container view shows.
    pub open spec fn spec_to_view(self) -> ViewState {
        match self {
            TabbarItemState::Basic => ViewState::Basic,
            TabbarItemState::Hover => ViewState::Hover,
            TabbarItemState::Active => ViewState::Pressed,
            TabbarItemState::Disabled => ViewState::Disabled,
        }
    }

    /// The state the tab's icon shows.
    pub open spec fn spec_to_svg(self) -> SvgState {
        match self {
            TabbarItemState::Basic => SvgState::Basic,
            TabbarItemState::Hover => SvgState::Hover,
            TabbarItemState::Active => SvgState::Pressed,
            TabbarItemState::Disabled => SvgState::Disabled,
        }
    }
}

impl From<TabbarItemState> for ViewState {
    fn from(value: TabbarItemState) -> (r: ViewState) {
        match value {
            TabbarItemState::Basic => ViewState::Basic,
            TabbarItemState::Hover => ViewState::Hover,
            TabbarItemState::Active => ViewState::Pressed,
            TabbarItemState::Disabled => ViewState::Disabled,
        }
    }
}

impl vstd::std_specs::convert::FromSpecImpl<TabbarItemState> for ViewState {
    open spec fn obeys_from_spec() -> bool {
        true
    }

    open spec fn from_spec(v: TabbarItemState) -> ViewState {
        v.spec_to_view()
    }
}

impl From<TabbarItemState> for SvgState {
    fn from(value: TabbarItemState) -> (r: SvgState) {
        match value {
            TabbarItemState::Basic => SvgState::Basic,
            TabbarItemState::Hover => SvgState::Hover,
            TabbarItemState::Active => SvgState::Pressed,
            TabbarItemState::Disabled => SvgState::Disabled,
        }
    }
}

impl vstd::std_specs::convert::FromSpecImpl<TabbarItemState> for SvgState {
    open spec fn obeys_from_spec() -> bool {
        true
    }

    open spec fn from_spec(v: TabbarItemState) -> SvgState {
        v.spec_to_svg()
    }
}

/// What a click on a tab reports: whether it is active, and its value.
#[derive(Clone, Debug, PartialEq, Eq)]
pub struct TabbarItemClicked {
    pub active: bool,
    pub value: String,
}

/// The events a tab sends.
#[derive(Clone, Debug, PartialEq, Eq)]
pub enum TabbarItemEvent {
    HoverIn,
    HoverOut,
    Clicked(TabbarItemClicked),
}

/// The effects a tab asks for.
pub type TabbarItemEffect = Effect<TabbarItemState, TabbarItemEvent>;

/// A tab: what its event handling reads and changes.
#[derive(Clone, Debug, PartialEq, Eq)]
pub struct GTabbarItem {
    pub visible: bool,
    pub disabled: bool,
    pub grab_key_focus: bool,
    pub event_open: bool,
    pub animation_open: bool,
    /// Whether the tab has been drawn into a scope, which its events need.
    pub scoped: bool,
    pub active: bool,
    pub value: String,
    pub state: TabbarItemState,
}

/// Whether a tab's events reach its listeners.
pub open spec fn tab_open(t: GTabbarItem) -> bool {
    t.event_open && t.scoped
}

/// What a tab does with an event: the tab after it, its effects, and the
/// click it hands to its bar instead of sending it, where the bar takes it
/// (`mixin`). An invisible tab ignores the event; a disabled one shows its
/// disabled state on a hover; an active one ignores the hit.
pub open spec fn tab_event(t: GTabbarItem, hit: Hit, mixin: bool) -> (GTabbarItem, Seq<TabbarItemEffect>, Option<TabbarItemClicked>) {
    let anim = t.animation_open;
    let open = tab_open(t);
    let start = opening_effects::<TabbarItemState, TabbarItemEvent>();
    if !t.visible {
        (t, Seq::empty(), None)
    } else if t.disabled {
        (
            GTabbarItem { state: disabled_state(t.state, TabbarItemState::Disabled, hit), ..t },
            start + disabled_effects::<TabbarItemState, TabbarItemEvent>(TabbarItemState::Disabled, hit),
            None,
        )
    } else if t.active {
        (t, start, None)
    } else {
        match hit {
            Hit::FingerDown => (t, start + if t.grab_key_focus { seq![Effect::KeyFocus] } else { Seq::empty() }, None),
            Hit::FingerHoverIn => (
                GTabbarItem { state: switched(anim, t.state, TabbarItemState::Hover), ..t },
                start + seq![Effect::Cursor(t.state)] + switch_effects(anim, false) + emit(open, TabbarItemEvent::HoverIn),
                None,
            ),
            Hit::FingerHoverOut => (
                GTabbarItem { state: switched(anim, t.state, TabbarItemState::Basic), ..t },
                start + switch_effects(anim, false) + emit(open, TabbarItemEvent::HoverOut),
                None,
            ),
            Hit::FingerUp(e) => if !e.is_over {
                (
                    GTabbarItem { state: switched(anim, t.state, TabbarItemState::Basic), ..t },
                    start + switch_effects(anim, false),
                    None,
                )
            } else {
                let active = e.has_hovers;
                let after = GTabbarItem {
                    active,
                    state: switched(anim, t.state, if active { TabbarItemState::Active } else { TabbarItemState::Basic }),
                    ..t
                };
                let shown = start + switch_effects(anim, false)
                    + seq![Effect::Animate(if active { Track::HoverActive } else { Track::HoverOff })];
                let clicked = TabbarItemClicked { active, value: t.value };
                if mixin {
                    (after, shown, Some(clicked))
                } else {
                    (after, shown + emit(open, TabbarItemEvent::Clicked(clicked)), None)
                }
            },
            _ => (t, start, None),
        }
    }
}

/// What a tab asks for after its bar turned it on or off: the switch of its
/// state, the animation of the change unless this is the first setting, and
/// its click unless its bar takes care of the change (`mixin`).
pub open spec fn tab_toggle(t: GTabbarItem, active: bool, init: bool, mixin: bool) -> (GTabbarItem, Seq<TabbarItemEffect>) {
    let anim = t.animation_open;
    let target = if active { TabbarItemState::Active } else { TabbarItemState::Basic };
    (
        GTabbarItem { active, state: switched(anim, t.state, target), ..t },
        switch_effects::<TabbarItemState, TabbarItemEvent>(anim, false)
            + (if init {
                Seq::empty()
            } else {
                seq![Effect::Animate(if active { Track::HoverActive } else { Track::HoverOff })]
            })
            + (if mixin {
                Seq::empty()
            } else {
                emit(tab_open(t), TabbarItemEvent::Clicked(TabbarItemClicked { active, value: t.value }))
            }),
    )
}

impl GTabbarItem {
    /// The click a tab reports, where its events reach its listeners.
    pub fn active_clicked(&self) -> (e: Option<TabbarItemEvent>)
        ensures
            e == (if tab_open(*self) {
                Some(TabbarItemEvent::Clicked(TabbarItemClicked { active: self.active, value: self.value }))
            } else {
                None
            }),
    {
        if self.event_open && self.scoped {
            Some(TabbarItemEvent::Clicked(TabbarItemClicked { active: self.active, value: self.value.clone() }))
        } else {
            None
        }
    }

    /// Handles an event on a tab; where its bar takes the click (`mixin`),
    /// a release over the tab hands the click back instead of sending it.
    pub fn handle_event_mixin(&mut self, hit: Hit, mixin: bool) -> (r: (Vec<TabbarItemEffect>, Option<TabbarItemClicked>))
        ensures
            ({
                let (t, fx, back) = tab_event(*old(self), hit, mixin);
                *final(self) == t && r.0@ == fx && r.1 == back
            }),
    {
        if !self.visible {
            return (Vec::new(), None);
        }
        let mut effects = opening();
        if self.disabled {
            self.state = handle_disabled(self.state, TabbarItemState::Disabled, hit, &mut effects);
            return (effects, None);
        }
        if self.active {
            return (effects, None);
        }
        let anim = self.animation_open;
        let open = self.event_open && self.scoped;
        let mut back: Option<TabbarItemClicked> = None;
        match hit {
            Hit::FingerDown => {
                if self.grab_key_focus {
                    push_effect(&mut effects, Effect::KeyFocus);
                }
            },
            Hit::FingerHoverIn => {
                push_effect(&mut effects, Effect::Cursor(self.state));
                push_switch(&mut effects, anim, false);
                if anim {
                    self.state = TabbarItemState::Hover;
                }
                push_emit(&mut effects, open, TabbarItemEvent::HoverIn);
            },
            Hit::FingerHoverOut => {
                push_switch(&mut effects, anim, false);
                if anim {
                    self.state = TabbarItemState::Basic;
                }
                push_emit(&mut effects, open, TabbarItemEvent::HoverOut);
            },
            Hit::FingerUp(e) => {
                push_switch(&mut effects, anim, false);
                if !e.is_over {
                    if anim {
                        self.state = TabbarItemState::Basic;
                    }
                } else {
                    if e.has_hovers {
                        self.active = true;
                        if anim {
                            self.state = TabbarItemState::Active;
                        }
                        push_effect(&mut effects, Effect::Animate(Track::HoverActive));
                    } else {
                        if anim {
                            self.state = TabbarItemState::Basic;
                        }
                        push_effect(&mut effects, Effect::Animate(Track::HoverOff));
                    }
                    let clicked = TabbarItemClicked { active: self.active, value: self.value.clone() };
                    if mixin {
                        back = Some(clicked);
                    } else {
                        push_emit(&mut effects, open, TabbarItemEvent::Clicked(clicked));
                    }
                }
            },
            _ => {},
        }
        proof {
            let (t, fx, b) = tab_event(*old(self), hit, mixin);
            assert(effects@ =~= fx);
        }
        (effects, back)
    }

    /// Handles an event on a tab that sends its own clicks.
    pub fn handle_event(&mut self, hit: Hit) -> (effects: Vec<TabbarItemEffect>)
        ensures
            ({
                let (t, fx, back) = tab_event(*old(self), hit, false);
                *final(self) == t && effects@ == fx
            }),
    {
        let (effects, _) = self.handle_event_mixin(hit, false);
        effects
    }

    /// Turns the tab on or off as its bar asks; `init` marks the first
    /// setting, which plays no animation, and `mixin` that the bar reports
    /// the change itself.
    pub fn toggle_mixin(&mut self, active: bool, init: bool, mixin: bool) -> (effects: Vec<TabbarItemEffect>)
        ensures
            (*final(self), effects@) == tab_toggle(*old(self), active, init, mixin),
    {
        self.active = active;
        let anim = self.animation_open;
        let mut effects: Vec<TabbarItemEffect> = Vec::new();
        push_switch(&mut effects, anim, false);
        if anim {
            self.state = if active { TabbarItemState::Active } else { TabbarItemState::Basic };
        }
        if !init {
            push_effect(&mut effects, Effect::Animate(if active { Track::HoverActive } else { Track::HoverOff }));
        }
        if !mixin {
            let open = self.event_open && self.scoped;
            push_emit(&mut effects, open, TabbarItemEvent::Clicked(TabbarItemClicked { active, value: self.value.clone() }));
        }
        proof {
            let (t, fx) = tab_toggle(*old(self), active, init, mixin);
            assert(effects@ =~= fx);
        }
        effects
    }

    /// Turns the tab on or off and reports the change itself.
    pub fn toggle(&mut self, active: bool, init: bool) -> (effects: Vec<TabbarItemEffect>)
        ensures
            (*final(self), effects@) == tab_toggle(*old(self), active, init, false),
    {
        self.toggle_mixin(active, init, false)
    }

    /// Puts the tab in the state it is drawn in.
    pub fn render(&mut self)
        ensures
            *final(self) == (GTabbarItem {
                state: if old(self).disabled {
                    TabbarItemState::Disabled
                } else if old(self).active {
                    TabbarItemState::Active
                } else {
                    TabbarItemState::Basic
                },
                ..*old(self)
            }),
    {
        self.state = if self.disabled {
            TabbarItemState::Disabled
        } else if self.active {
            TabbarItemState::Active
        } else {
            TabbarItemState::Basic
        };
    }
}

/// A tab hands its bar a click exactly when the bar takes clicks and a
/// finger is released over a visible, enabled tab that is not active yet.
pub proof fn lemma_tab_hands_click(t: GTabbarItem, hit: Hit, mixin: bool)
    ensures
        tab_event(t, hit, mixin).2 is Some <==> (mixin && t.visible && !t.disabled && !t.active
            && (hit matches Hit::FingerUp(e) && e.is_over)),
{
}

/// Which of a tab's two slot lookups answers a search by widget id.
#[derive(Clone, Copy, Debug, PartialEq, Eq)]
pub enum SlotLookup {
    /// Neither slot: the search finds nothing.
    Neither,
    /// The icon slot's lookup.
    Icon,
    /// The text slot's lookup.
    Text,
}

/// The lookup a tab hands back, from whether the icon's and the text's
/// lookups came back empty: where exactly one of them came back empty, the
/// tab hands back that empty one.
pub open spec fn slot_lookup(icon_empty: bool, text_empty: bool) -> SlotLookup {
    if icon_empty && text_empty {
        SlotLookup::Neither
    } else if icon_empty {
        SlotLookup::Icon
    } else {
        SlotLookup::Text
    }
}

impl GTabbarItem {
    /// Answers a search by widget id from what the icon's and the text's
    /// lookups found (`true` where a lookup came back empty). Both slots
    /// finding the widget is refused.
    pub fn uid_to_widget(icon_empty: bool, text_empty: bool) -> (r: SlotLookup)
        requires
            icon_empty || text_empty,
        ensures
            r == slot_lookup(icon_empty, text_empty),
    {
        if icon_empty && text_empty {
            SlotLookup::Neither
        } else if icon_empty {
            SlotLookup::Icon
        } else {
            SlotLookup::Text
        }
    }
}

/// A search by widget id through a tab never reaches a widget: the lookup it
/// hands back is always one that came back empty.
pub proof fn lemma_slot_lookup_empty(icon_empty: bool, text_empty: bool)
    requires
        icon_empty || text_empty,
    ensures
        slot_lookup(icon_empty, text_empty) is Icon ==> icon_empty,
        slot_lookup(icon_empty, text_empty) is Text ==> text_empty,
{
}

impl GTabbarItem {
    /// Draws the tab where it is visible, which gives it the scope its events
    /// need; a hidden tab is not drawn and gets no scope. Returns whether it
    /// was drawn.
    pub fn draw_walk(&mut self) -> (drawn: bool)
        ensures
            drawn == old(self).visible,
            *final(self) == (GTabbarItem { scoped: old(self).scoped || old(self).visible, ..*old(self) }),
    {
        if self.visible {
            self.scoped = true;
        }
        self.visible
    }
}

/// The state whose styles a block of the tab's document sets, by the
/// block's name; a block under any other name sets none.
pub open spec fn tab_named_state(name: Seq<char>) -> Option<TabbarItemState> {
    if name == "basic"@ {
        Some(TabbarItemState::Basic)
    } else if name == "hover"@ {
        Some(TabbarItemState::Hover)
    } else if name == "active"@ {
        Some(TabbarItemState::Active)
    } else if name == "disabled"@ {
        Some(TabbarItemState::Disabled)
    } else {
        None
    }
}

impl GTabbarItem {
    /// After a live update of its document, the tab files the styles of each
    /// named block under the state the block names: the state for a block
    /// named `prefix`, if it names one.
    pub fn after_apply(prefix: &String) -> (r: Option<TabbarItemState>)
        ensures
            r == tab_named_state(prefix@),
    {
        if is_named(prefix, "basic") {
            Some(TabbarItemState::Basic)
        } else if is_named(prefix, "hover") {
            Some(TabbarItemState::Hover)
        } else if is_named(prefix, "active") {
            Some(TabbarItemState::Active)
        } else if is_named(prefix, "disabled") {
            Some(TabbarItemState::Disabled)
        } else {
            None
        }
    }
}

/// A tab that its bar turns on or off with its animation open shows what it
/// was turned to: active when turned on, basic when turned off, whatever it
/// showed before; with its animation closed it keeps showing what it showed.
pub proof fn lemma_tab_toggle_shows_flag(t: GTabbarItem, active: bool, init: bool, mixin: bool)
    ensures
        tab_toggle(t, active, init, mixin).0.active == active,
        t.animation_open && active ==> tab_toggle(t, active, init, mixin).0.state == TabbarItemState::Active,
        t.animation_open && !active ==> tab_toggle(t, active, init, mixin).0.state == TabbarItemState::Basic,
        !t.animation_open ==> tab_toggle(t, active, init, mixin).0.state == t.state,
{
}

/// With its animation open, a visible, enabled tab that is not active shows
/// hover while the pointer is over it and basic once the pointer has left it
/// or a finger was released away from it; a release over it turns it on
/// (showing active) exactly where the finger hovers, and off (showing basic)
/// otherwise.
pub proof fn lemma_tab_event_states(t: GTabbarItem, hit: Hit, mixin: bool)
    requires
        t.animation_open,
        t.visible,
        !t.disabled,
        !t.active,
    ensures
        hit is FingerHoverIn ==> tab_event(t, hit, mixin).0.state == TabbarItemState::Hover,
        hit is FingerHoverOut ==> tab_event(t, hit, mixin).0.state == TabbarItemState::Basic,
        hit matches Hit::FingerUp(e) ==> {
            let after = tab_event(t, hit, mixin).0;
            &&& after.active == (e.is_over && e.has_hovers)
            &&& after.state == (if e.is_over && e.has_hovers { TabbarItemState::Active } else { TabbarItemState::Basic })
        },
{
}

} // verus!
