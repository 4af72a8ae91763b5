//! The switch: a two-way toggle whose value flips when it is clicked.

use vstd::prelude::*;
use crate::text::is_named;
use crate::state::{ComponentState, Style};
use crate::widget::{
    disabled_effects, disabled_state, emit, handle_disabled, opening, opening_effects, push_effect,
    push_emit, push_switch, switch_effects, switched, Effect, Hit, Track,
};

verus! {

/// The state of a switch: off or on, each with or without a hover.
#[derive(Clone, Copy, Debug, PartialEq, Eq, Hash)]
pub enum SwitchState {
    Basic,
    HoverBasic,
    HoverActive,
    Active,
    Disabled,
}

impl ComponentState for SwitchState {
    open spec fn spec_is_disabled(&self) -> bool {
        *self is Disabled
    }

    fn is_disabled(&self) -> (r: bool) {
        match self {
            SwitchState::Disabled => true,
            _ => false,
        }
    }
}

impl SwitchState {
    /// The animator track whose values show the state.
    pub open spec fn spec_track(self) -> Track {
        match self {
            SwitchState::Basic => Track::ActiveOff,
            SwitchState::HoverBasic => Track::ActiveOffHover,
            SwitchState::HoverActive => Track::ActiveOnHover,
            SwitchState::Active => Track::ActiveOn,
            SwitchState::Disabled => Track::ActiveDisabled,
        }
    }

    /// The animator track whose values show the state.
    pub fn track(&self) -> (t: Track)
        ensures
            t == self.spec_track(),
    {
        match self {
            SwitchState::Basic => Track::ActiveOff,
            SwitchState::HoverBasic => Track::ActiveOffHover,
            SwitchState::HoverActive => Track::ActiveOnHover,
            SwitchState::Active => Track::ActiveOn,
            SwitchState::Disabled => Track::ActiveDisabled,
        }
    }
}

/// The styles of a switch, one per state.
#[derive(Clone, Copy, Debug, PartialEq, Eq)]
pub struct SwitchProp<B> {
    pub basic: B,
    pub hover_basic: B,
    pub hover_active: B,
    pub active: B,
    pub disabled: B,
}

impl<B> Style for SwitchProp<B> {
    type State = SwitchState;
    type Basic = B;

    open spec fn spec_get(&self, state: SwitchState) -> B {
        match state {
            SwitchState::Basic => self.basic,
            SwitchState::HoverBasic => self.hover_basic,
            SwitchState::HoverActive => self.hover_active,
            SwitchState::Active => self.active,
            SwitchState::Disabled => self.disabled,
        }
    }

    fn get(&self, state: SwitchState) -> (r: &B) {
        match state {
            SwitchState::Basic => &self.basic,
            SwitchState::HoverBasic => &self.hover_basic,
            SwitchState::HoverActive => &self.hover_active,
            SwitchState::Active => &self.active,
            SwitchState::Disabled => &self.disabled,
        }
    }

    fn get_mut(&mut self, state: SwitchState) -> (r: &mut B) {
        match state {
            SwitchState::Basic => &mut self.basic,
            SwitchState::HoverBasic => &mut self.hover_basic,
            SwitchState::HoverActive => &mut self.hover_active,
            SwitchState::Active => &mut self.active,
            SwitchState::Disabled => &mut self.disabled,
        }
    }
}

/// A click on a switch and the value it left.
#[derive(Clone, Copy, Debug, PartialEq, Eq)]
pub struct SwitchClicked {
    pub value: bool,
}

/// A change of a switch's value.
#[derive(Clone, Copy, Debug, PartialEq, Eq)]
pub struct SwitchChanged {
    pub value: bool,
}

/// The events a switch sends.
#[derive(Clone, Copy, Debug, PartialEq, Eq)]
pub enum SwitchEvent {
    HoverIn,
    HoverOut,
    Clicked(SwitchClicked),
    Changed(SwitchChanged),
}

/// The effects a switch asks for.
pub type SwitchEffect = Effect<SwitchState, SwitchEvent>;

/// A switch: what its event handling reads and changes.
#[derive(Clone, Copy, Debug, PartialEq, Eq)]
pub struct GSwitch {
    pub visible: bool,
    pub disabled: bool,
    pub grab_key_focus: bool,
    pub event_open: bool,
    pub animation_open: bool,
    /// Whether the switch has been drawn into a scope, which its events need.
    pub scoped: bool,
    /// Whether the switch is on.
    pub value: bool,
    pub state: SwitchState,
}

/// Whether a switch's events reach its listeners.
pub open spec fn switch_open(s: GSwitch) -> bool {
    s.event_open && s.scoped
}

/// The state a switch is drawn in.
pub open spec fn switch_render_state(disabled: bool, value: bool) -> SwitchState {
    if disabled {
        SwitchState::Disabled
    } else if value {
        SwitchState::Active
    } else {
        SwitchState::Basic
    }
}

/// What a switch that is not disabled does with a hit: its value, its state
/// and the effects it asks for. A release over the switch reports a click; it
/// reports a change only where the value changed.
pub open spec fn switch_hit(s: GSwitch, hit: Hit) -> (bool, SwitchState, Seq<SwitchEffect>) {
    let open = switch_open(s);
    let anim = s.animation_open;
    let v = s.value;
    match hit {
        Hit::FingerDown => (v, s.state, if s.grab_key_focus { seq![Effect::KeyFocus] } else { Seq::empty() }),
        Hit::FingerHoverIn => (
            v,
            switched(anim, s.state, if v { SwitchState::HoverActive } else { SwitchState::HoverBasic }),
            seq![Effect::Cursor(s.state)] + switch_effects(anim, false)
                + seq![Effect::Animate(if v { Track::ActiveOnHover } else { Track::ActiveOffHover })]
                + emit(open, SwitchEvent::HoverIn),
        ),
        Hit::FingerHoverOut => (
            v,
            switched(anim, s.state, if v { SwitchState::Active } else { SwitchState::Basic }),
            switch_effects(anim, false)
                + seq![Effect::Animate(if v { Track::ActiveOn } else { Track::ActiveOff })]
                + emit(open, SwitchEvent::HoverOut),
        ),
        Hit::FingerUp(e) => if !e.is_over {
            (v, switched(anim, s.state, SwitchState::Basic), switch_effects(anim, false))
        } else {
            let nv = if e.has_hovers { !v } else { v };
            let target = if e.has_hovers && !v { SwitchState::Active } else { SwitchState::Basic };
            let track = if e.has_hovers && !v { Track::ActiveOn } else { Track::ActiveOff };
            (
                nv,
                switched(anim, s.state, target),
                switch_effects(anim, false) + seq![Effect::Animate(track)]
                    + emit(open, SwitchEvent::Clicked(SwitchClicked { value: nv }))
                    + (if nv != v { emit(open, SwitchEvent::Changed(SwitchChanged { value: nv })) } else { Seq::empty() }),
            )
        },
        _ => (v, s.state, Seq::empty()),
    }
}

impl GSwitch {
    /// The click a switch reports, where its events reach its listeners.
    pub fn active_clicked(&self) -> (e: Option<SwitchEvent>)
        ensures
            e == (if switch_open(*self) { Some(SwitchEvent::Clicked(SwitchClicked { value: self.value })) } else { None }),
    {
        if self.event_open && self.scoped {
            Some(SwitchEvent::Clicked(SwitchClicked { value: self.value }))
        } else {
            None
        }
    }

    /// The change a switch reports, where its events reach its listeners.
    pub fn active_changed(&self) -> (e: Option<SwitchEvent>)
        ensures
            e == (if switch_open(*self) { Some(SwitchEvent::Changed(SwitchChanged { value: self.value })) } else { None }),
    {
        if self.event_open && self.scoped {
            Some(SwitchEvent::Changed(SwitchChanged { value: self.value }))
        } else {
            None
        }
    }

    /// Handles a hit on a switch that is not disabled.
    pub fn handle_widget_event(&mut self, hit: Hit) -> (effects: Vec<SwitchEffect>)
        ensures
            (final(self).value, final(self).state, effects@) == switch_hit(*old(self), hit),
            *final(self) == (GSwitch { value: final(self).value, state: final(self).state, ..*old(self) }),
    {
        let mut effects: Vec<SwitchEffect> = Vec::new();
        let open = self.event_open && self.scoped;
        let anim = self.animation_open;
        match hit {
            Hit::FingerDown => {
                if self.grab_key_focus {
                    push_effect(&mut effects, Effect::KeyFocus);
                }
            },
            Hit::FingerHoverIn => {
                push_effect(&mut effects, Effect::Cursor(self.state));
                let (state, track) = if self.value {
                    (SwitchState::HoverActive, Track::ActiveOnHover)
                } else {
                    (SwitchState::HoverBasic, Track::ActiveOffHover)
                };
                push_switch(&mut effects, anim, false);
                if anim {
                    self.state = state;
                }
                push_effect(&mut effects, Effect::Animate(track));
                push_emit(&mut effects, open, SwitchEvent::HoverIn);
            },
            Hit::FingerHoverOut => {
                let (state, track) = if self.value {
                    (SwitchState::Active, Track::ActiveOn)
                } else {
                    (SwitchState::Basic, Track::ActiveOff)
                };
                push_switch(&mut effects, anim, false);
                if anim {
                    self.state = state;
                }
                push_effect(&mut effects, Effect::Animate(track));
                push_emit(&mut effects, open, SwitchEvent::HoverOut);
            },
            Hit::FingerUp(e) => {
                push_switch(&mut effects, anim, false);
                if !e.is_over {
                    if anim {
                        self.state = SwitchState::Basic;
                    }
                } else {
                    let (state, track) = if e.has_hovers {
                        let pair = if self.value {
                            (SwitchState::Basic, Track::ActiveOff)
                        } else {
                            (SwitchState::Active, Track::ActiveOn)
                        };
                        self.value = !self.value;
                        pair
                    } else {
                        (SwitchState::Basic, Track::ActiveOff)
                    };
                    if anim {
                        self.state = state;
                    }
                    push_effect(&mut effects, Effect::Animate(track));
                    push_emit(&mut effects, open, SwitchEvent::Clicked(SwitchClicked { value: self.value }));
                    if e.has_hovers {
                        push_emit(&mut effects, open, SwitchEvent::Changed(SwitchChanged { value: self.value }));
                    }
                }
            },
            _ => {},
        }
        proof {
            let (v, s, fx) = switch_hit(*old(self), hit);
            assert(effects@ =~= fx);
        }
        effects
    }

    /// Handles a hit on a disabled switch.
    pub fn handle_when_disabled(&mut self, hit: Hit) -> (effects: Vec<SwitchEffect>)
        ensures
            *final(self) == (GSwitch { state: disabled_state(old(self).state, SwitchState::Disabled, hit), ..*old(self) }),
            effects@ == disabled_effects::<SwitchState, SwitchEvent>(SwitchState::Disabled, hit),
    {
        let mut effects: Vec<SwitchEffect> = Vec::new();
        self.state = handle_disabled(self.state, SwitchState::Disabled, hit, &mut effects);
        assert(effects@ =~= disabled_effects::<SwitchState, SwitchEvent>(SwitchState::Disabled, hit));
        effects
    }

    /// Handles an event on a switch: an invisible switch ignores it; a visible
    /// one writes its animator, then handles the hit as a disabled or as an
    /// enabled switch.
    pub fn handle_event(&mut self, hit: Hit) -> (effects: Vec<SwitchEffect>)
        ensures
            !old(self).visible ==> *final(self) == *old(self) && effects@.len() == 0,
            old(self).visible && old(self).disabled ==>
                *final(self) == (GSwitch { state: disabled_state(old(self).state, SwitchState::Disabled, hit), ..*old(self) })
                && effects@ == opening_effects::<SwitchState, SwitchEvent>() + disabled_effects::<SwitchState, SwitchEvent>(SwitchState::Disabled, hit),
            old(self).visible && !old(self).disabled ==> ({
                let (v, s, fx) = switch_hit(*old(self), hit);
                *final(self) == (GSwitch { value: v, state: s, ..*old(self) })
                    && effects@ == opening_effects::<SwitchState, SwitchEvent>() + fx
            }),
    {
        if !self.visible {
            return Vec::new();
        }
        let mut effects = opening();
        let mut more = if self.disabled { self.handle_when_disabled(hit) } else { self.handle_widget_event(hit) };
        effects.append(&mut more);
        effects
    }

    /// Puts the switch in the state it is drawn in.
    pub fn render(&mut self)
        ensures
            *final(self) == (GSwitch { state: switch_render_state(old(self).disabled, old(self).value), ..*old(self) }),
    {
        self.state = if self.disabled {
            SwitchState::Disabled
        } else if self.value {
            SwitchState::Active
        } else {
            SwitchState::Basic
        };
    }
}

/// A switch that is not disabled flips its value exactly when a finger that
/// hovers is released over it; no other hit changes the value.
pub proof fn lemma_switch_flips_on_click(s: GSwitch, hit: Hit)
    ensures
        switch_hit(s, hit).0 == (if (hit matches Hit::FingerUp(e) && e.is_over && e.has_hovers) { !s.value } else { s.value }),
{
}

/// Two clicks bring a switch back to the value it had.
pub proof fn lemma_switch_two_clicks(s: GSwitch, e: crate::widget::FingerUp)
    requires
        e.is_over,
        e.has_hovers,
    ensures
        ({
            let (v1, st1, fx1) = switch_hit(s, Hit::FingerUp(e));
            let (v2, st2, fx2) = switch_hit(GSwitch { value: v1, state: st1, ..s }, Hit::FingerUp(e));
            v2 == s.value
        }),
{
}

/// With its animation open, a switch that the pointer leaves shows the state
/// it is drawn in.
pub proof fn lemma_switch_hover_out_shows_value(s: GSwitch)
    requires
        s.animation_open,
    ensures
        switch_hit(s, Hit::FingerHoverOut).1 == switch_render_state(false, s.value),
{
}

/// A release over a switch reports a click with the value it was left with;
/// where a hovering finger flipped the value, a change with that value
/// follows it, and where the value stayed, nothing follows it.
pub proof fn lemma_switch_reports_new_value(s: GSwitch, e: crate::widget::FingerUp)
    requires
        e.is_over,
        switch_open(s),
    ensures
        ({
            let (v, st, fx) = switch_hit(s, Hit::FingerUp(e));
            if e.has_hovers {
                &&& v == !s.value
                &&& fx.len() >= 2
                &&& fx[fx.len() - 2] == Effect::<SwitchState, SwitchEvent>::Emit(SwitchEvent::Clicked(SwitchClicked { value: v }))
                &&& fx[fx.len() - 1] == Effect::<SwitchState, SwitchEvent>::Emit(SwitchEvent::Changed(SwitchChanged { value: v }))
            } else {
                &&& v == s.value
                &&& fx.len() >= 1
                &&& fx[fx.len() - 1] == Effect::<SwitchState, SwitchEvent>::Emit(SwitchEvent::Clicked(SwitchClicked { value: v }))
            }
        }),
{
}

/// A switch reports a change only where its value changed, and the change
/// carries the new value.
pub proof fn lemma_switch_changed_only_on_change(s: GSwitch, hit: Hit, c: SwitchChanged)
    ensures
        switch_hit(s, hit).2.contains(Effect::Emit(SwitchEvent::Changed(c))) ==>
            switch_hit(s, hit).0 != s.value && c.value == switch_hit(s, hit).0,
{
    let (v, st, fx) = switch_hit(s, hit);
    let target = Effect::<SwitchState, SwitchEvent>::Emit(SwitchEvent::Changed(c));
    if fx.contains(target) {
        let k = choose|k: int| 0 <= k < fx.len() && fx[k] == target;
        assert(fx[k] == target);
    }
}

impl GSwitch {
    /// Draws the switch where it is visible; drawing gives the switch the
    /// scope its events need even where it is hidden. Returns whether it was
    /// drawn.
    pub fn draw_walk(&mut self) -> (drawn: bool)
        ensures
            drawn == old(self).visible,
            *final(self) == (GSwitch { scoped: true, ..*old(self) }),
    {
        self.scoped = true;
        self.visible
    }
}

/// The state whose styles a block of the switch's document sets, by the
/// block's name; a block under any other name sets none.
pub open spec fn switch_named_state(name: Seq<char>) -> Option<SwitchState> {
    if name == "basic"@ {
        Some(SwitchState::Basic)
    } else if name == "hover_basic"@ {
        Some(SwitchState::HoverBasic)
    } else if name == "hover_active"@ {
        Some(SwitchState::HoverActive)
    } else if name == "active"@ {
        Some(SwitchState::Active)
    } else if name == "disabled"@ {
        Some(SwitchState::Disabled)
    } else {
        None
    }
}

impl GSwitch {
    /// After a live update of its document, the switch files the styles of each
    /// named block under the state the block names: the state for a block
    /// named `prefix`, if it names one.
    pub fn after_apply(prefix: &String) -> (r: Option<SwitchState>)
        ensures
            r == switch_named_state(prefix@),
    {
        if is_named(prefix, "basic") {
            Some(SwitchState::Basic)
        } else if is_named(prefix, "hover_basic") {
            Some(SwitchState::HoverBasic)
        } else if is_named(prefix, "hover_active") {
            Some(SwitchState::HoverActive)
        } else if is_named(prefix, "active") {
            Some(SwitchState::Active)
        } else if is_named(prefix, "disabled") {
            Some(SwitchState::Disabled)
        } else {
            None
        }
    }
}

/// With its animation open, a switch shows its hover state for its value
/// while the pointer is over it, and after a release over it shows active
/// exactly where it is on.
pub proof fn lemma_switch_hit_states(s: GSwitch, hit: Hit)
    requires
        s.animation_open,
    ensures
        hit is FingerHoverIn ==> switch_hit(s, hit).1 == (if s.value { SwitchState::HoverActive } else { SwitchState::HoverBasic }),
        hit matches Hit::FingerUp(e) ==> switch_hit(s, hit).1 == (if e.is_over && e.has_hovers && switch_hit(s, hit).0 {
            SwitchState::Active
        } else {
            SwitchState::Basic
        }),
{
}

} // verus!
