//! The radio: a button that turns active when it is clicked and stays active
//! until its group or its owner turns it off.

use vstd::prelude::*;
use crate::text::is_named;
use crate::state::{ComponentState, LabelState, Style, ViewState};
use crate::widget::{
    disabled_effects, disabled_state, emit, handle_disabled, opening, opening_effects, push_effect,
    push_emit, push_switch, switch_effects, switched, Effect, FingerUp, Hit, Track,
};

verus! {

/// The state of a radio.
#[derive(Clone, Copy, Debug, PartialEq, Eq, Hash)]
pub enum RadioState {
    Basic,
    Hover,
    Active,
    Disabled,
}

impl ComponentState for RadioState {
    open spec fn spec_is_disabled(&self) -> bool {
        *self is Disabled
    }

    fn is_disabled(&self) -> (r: bool) {
        match self {
            RadioState::Disabled => true,
            _ => false,
        }
    }
}

impl RadioState {
    /// The animator track whose values show the state.
    pub open spec fn spec_track(self) -> Track {
        match self {
            RadioState::Basic => Track::HoverOff,
            RadioState::Hover => Track::HoverOn,
            RadioState::Active => Track::HoverActive,
            RadioState::Disabled => Track::HoverDisabled,
        }
    }

    /// The animator track whose values show the state.
    pub fn track(&self) -> (t: Track)
        ensures
            t == self.spec_track(),
    {
        match self {
            RadioState::Basic => Track::HoverOff,
            RadioState::Hover => Track::HoverOn,
            RadioState::Active => Track::HoverActive,
            RadioState::Disabled => Track::HoverDisabled,
        }
    }

    /// The state the view beside the radio is shown in.
    pub open spec fn spec_to_view(self) -> ViewState {
        match self {
            RadioState::Basic => ViewState::Basic,
            RadioState::Hover => ViewState::Hover,
            RadioState::Active => ViewState::Pressed,
            RadioState::Disabled => ViewState::Disabled,
        }
    }

    /// The radio state a view state stands for.
    pub open spec fn spec_from_view(v: ViewState) -> RadioState {
        match v {
            ViewState::Basic => RadioState::Basic,
            ViewState::Hover => RadioState::Hover,
            ViewState::Pressed => RadioState::Active,
            ViewState::Disabled => RadioState::Disabled,
        }
    }
}

impl From<RadioState> for ViewState {
    fn from(value: RadioState) -> (r: ViewState) {
        match value {
            RadioState::Basic => ViewState::Basic,
            RadioState::Hover => ViewState::Hover,
            RadioState::Active => ViewState::Pressed,
            RadioState::Disabled => ViewState::Disabled,
        }
    }
}

impl vstd::std_specs::convert::FromSpecImpl<RadioState> for ViewState {
    open spec fn obeys_from_spec() -> bool {
        true
    }

    open spec fn from_spec(v: RadioState) -> ViewState {
        v.spec_to_view()
    }
}

impl From<ViewState> for RadioState {
    fn from(value: ViewState) -> (r: RadioState) {
        match value {
            ViewState::Basic => RadioState::Basic,
            ViewState::Hover => RadioState::Hover,
            ViewState::Pressed => RadioState::Active,
            ViewState::Disabled => RadioState::Disabled,
        }
    }
}

impl vstd::std_specs::convert::FromSpecImpl<ViewState> for RadioState {
    open spec fn obeys_from_spec() -> bool {
        true
    }

    open spec fn from_spec(v: ViewState) -> RadioState {
        RadioState::spec_from_view(v)
    }
}

/// The parts of a radio that carry a style of their own.
#[derive(Clone, Copy, Debug, PartialEq, Eq, Hash)]
pub enum RadioPart {
    Container,
    Radio,
    Extra,
}

/// The styles of a radio, one per state.
#[derive(Clone, Copy, Debug, PartialEq, Eq)]
pub struct RadioProp<B> {
    pub basic: B,
    pub hover: B,
    pub active: B,
    pub disabled: B,
}

impl<B> Style for RadioProp<B> {
    type State = RadioState;
    type Basic = B;

    open spec fn spec_get(&self, state: RadioState) -> B {
        match state {
            RadioState::Basic => self.basic,
            RadioState::Hover => self.hover,
            RadioState::Active => self.active,
            RadioState::Disabled => self.disabled,
        }
    }

    fn get(&self, state: RadioState) -> (r: &B) {
        match state {
            RadioState::Basic => &self.basic,
            RadioState::Hover => &self.hover,
            RadioState::Active => &self.active,
            RadioState::Disabled => &self.disabled,
        }
    }

    fn get_mut(&mut self, state: RadioState) -> (r: &mut B) {
        match state {
            RadioState::Basic => &mut self.basic,
            RadioState::Hover => &mut self.hover,
            RadioState::Active => &mut self.active,
            RadioState::Disabled => &mut self.disabled,
        }
    }
}

/// What a click on a radio reports: whether it is active now, and its value.
#[derive(Clone, Debug, PartialEq, Eq)]
pub struct RadioClicked {
    pub active: bool,
    pub value: String,
}

/// The events a radio sends.
#[derive(Clone, Debug, PartialEq, Eq)]
pub enum RadioEvent {
    HoverIn,
    HoverOut,
    Clicked(RadioClicked),
}

/// The effects a radio asks for.
pub type RadioEffect = Effect<RadioState, RadioEvent>;

/// A radio: what its event handling reads and changes.
pub struct GRadio {
    pub visible: bool,
    pub radio_visible: bool,
    pub extra_visible: bool,
    pub reverse: bool,
    pub disabled: bool,
    pub grab_key_focus: bool,
    pub event_open: bool,
    pub animation_open: bool,
    /// Whether the radio has been drawn into a scope, which its events need.
    pub scoped: bool,
    /// An active radio cannot be turned off by the user.
    pub active: bool,
    pub value: String,
    pub state: RadioState,
}

/// Whether two radios agree on everything but their active flag and state.
pub open spec fn same_setup(a: GRadio, b: GRadio) -> bool {
    &&& a.visible == b.visible
    &&& a.radio_visible == b.radio_visible
    &&& a.extra_visible == b.extra_visible
    &&& a.reverse == b.reverse
    &&& a.disabled == b.disabled
    &&& a.grab_key_focus == b.grab_key_focus
    &&& a.event_open == b.event_open
    &&& a.animation_open == b.animation_open
    &&& a.scoped == b.scoped
    &&& a.value == b.value
}

/// Whether a radio's events reach its listeners.
pub open spec fn radio_open(r: GRadio) -> bool {
    r.event_open && r.scoped
}

/// What a radio that is not disabled does with a hit: its active flag, its
/// state and the effects it asks for. An active radio ignores every hit.
pub open spec fn radio_hit(r: GRadio, hit: Hit) -> (bool, RadioState, Seq<RadioEffect>) {
    let open = radio_open(r);
    let anim = r.animation_open;
    if r.active {
        (true, r.state, Seq::empty())
    } else {
        match hit {
            Hit::FingerDown => (false, r.state, if r.grab_key_focus { seq![Effect::KeyFocus] } else { Seq::empty() }),
            Hit::FingerHoverIn => (
                false,
                switched(anim, r.state, RadioState::Hover),
                seq![Effect::Cursor(r.state)] + switch_effects(anim, false) + emit(open, RadioEvent::HoverIn),
            ),
            Hit::FingerHoverOut => (
                false,
                switched(anim, r.state, RadioState::Basic),
                switch_effects(anim, false) + emit(open, RadioEvent::HoverOut),
            ),
            Hit::FingerUp(e) => if !e.is_over {
                (false, switched(anim, r.state, RadioState::Basic), switch_effects(anim, false))
            } else if e.has_hovers {
                (
                    true,
                    switched(anim, r.state, RadioState::Active),
                    switch_effects(anim, false) + seq![Effect::Animate(Track::HoverActive)]
                        + emit(open, RadioEvent::Clicked(RadioClicked { active: true, value: r.value })),
                )
            } else {
                (
                    false,
                    switched(anim, r.state, RadioState::Basic),
                    switch_effects(anim, false) + seq![Effect::Animate(Track::HoverOff)]
                        + emit(open, RadioEvent::Clicked(RadioClicked { active: false, value: r.value })),
                )
            },
            _ => (false, r.state, Seq::empty()),
        }
    }
}

/// The state a radio is drawn in: disabled, active or basic.
pub open spec fn radio_render_state(disabled: bool, active: bool) -> RadioState {
    if disabled {
        RadioState::Disabled
    } else if active {
        RadioState::Active
    } else {
        RadioState::Basic
    }
}

/// The state a radio shows after it was turned on or off by its owner.
pub open spec fn radio_toggle_state(active: bool) -> RadioState {
    if active { RadioState::Active } else { RadioState::Basic }
}

/// What a radio asks for after it was turned on or off by its owner: the
/// animation of the change unless this is the first setting, then the click.
pub open spec fn radio_toggle_effects(r: GRadio, active: bool, init: bool) -> Seq<RadioEffect> {
    (if init {
        Seq::empty()
    } else {
        seq![Effect::Animate(if active { Track::HoverActive } else { Track::HoverOff })]
    }) + emit(radio_open(r), RadioEvent::Clicked(RadioClicked { active, value: r.value }))
}

/// The parts of a radio in the order they are drawn.
pub open spec fn radio_draw_parts(r: GRadio) -> Seq<RadioPart> {
    if !r.visible {
        Seq::empty()
    } else {
        seq![RadioPart::Container]
            + (if !r.reverse && r.radio_visible { seq![RadioPart::Radio] } else { Seq::empty() })
            + (if r.extra_visible { seq![RadioPart::Extra] } else { Seq::empty() })
            + (if r.reverse && r.radio_visible { seq![RadioPart::Radio] } else { Seq::empty() })
    }
}

impl GRadio {
    /// The click a radio reports, where its events reach its listeners.
    pub fn active_clicked(&self) -> (e: Option<RadioEvent>)
        ensures
            e == (if radio_open(*self) {
                Some(RadioEvent::Clicked(RadioClicked { active: self.active, value: self.value }))
            } else {
                None
            }),
    {
        if self.event_open && self.scoped {
            Some(RadioEvent::Clicked(RadioClicked { active: self.active, value: self.value.clone() }))
        } else {
            None
        }
    }

    /// Handles a hit on a radio that is not disabled.
    pub fn handle_widget_event(&mut self, hit: Hit) -> (effects: Vec<RadioEffect>)
        ensures
            same_setup(*old(self), *final(self)),
            (final(self).active, final(self).state, effects@) == radio_hit(*old(self), hit),
    {
        let mut effects: Vec<RadioEffect> = Vec::new();
        if self.active {
            return effects;
        }
        let open = self.event_open && self.scoped;
        let anim = self.animation_open;
        match hit {
            Hit::FingerDown => {
                if self.grab_key_focus {
                    push_effect(&mut effects, Effect::KeyFocus);
                }
            },
            Hit::FingerHoverIn => {
                push_effect(&mut effects, Effect::Cursor(self.state));
                push_switch(&mut effects, anim, false);
                if anim {
                    self.state = RadioState::Hover;
                }
                push_emit(&mut effects, open, RadioEvent::HoverIn);
            },
            Hit::FingerHoverOut => {
                push_switch(&mut effects, anim, false);
                if anim {
                    self.state = RadioState::Basic;
                }
                push_emit(&mut effects, open, RadioEvent::HoverOut);
            },
            Hit::FingerUp(e) => {
                push_switch(&mut effects, anim, false);
                if !e.is_over {
                    if anim {
                        self.state = RadioState::Basic;
                    }
                } else {
                    if e.has_hovers {
                        self.active = true;
                        if anim {
                            self.state = RadioState::Active;
                        }
                        push_effect(&mut effects, Effect::Animate(Track::HoverActive));
                    } else {
                        if anim {
                            self.state = RadioState::Basic;
                        }
                        push_effect(&mut effects, Effect::Animate(Track::HoverOff));
                    }
                    let clicked = RadioClicked { active: self.active, value: self.value.clone() };
                    push_emit(&mut effects, open, RadioEvent::Clicked(clicked));
                }
            },
            _ => {},
        }
        proof {
            let (a, s, fx) = radio_hit(*old(self), hit);
            assert(effects@ =~= fx);
        }
        effects
    }

    /// Handles a hit on a disabled radio.
    pub fn handle_when_disabled(&mut self, hit: Hit) -> (effects: Vec<RadioEffect>)
        ensures
            same_setup(*old(self), *final(self)),
            final(self).active == old(self).active,
            final(self).state == disabled_state(old(self).state, RadioState::Disabled, hit),
            effects@ == disabled_effects::<RadioState, RadioEvent>(RadioState::Disabled, hit),
    {
        let mut effects: Vec<RadioEffect> = Vec::new();
        self.state = handle_disabled(self.state, RadioState::Disabled, hit, &mut effects);
        assert(effects@ =~= disabled_effects::<RadioState, RadioEvent>(RadioState::Disabled, hit));
        effects
    }

    /// Handles an event on a radio: an invisible radio ignores it; a visible
    /// one writes its animator, then handles the hit as a disabled or as an
    /// enabled radio.
    pub fn handle_event(&mut self, hit: Hit) -> (effects: Vec<RadioEffect>)
        ensures
            same_setup(*old(self), *final(self)),
            !old(self).visible ==> final(self).active == old(self).active && final(self).state == old(self).state
                && effects@.len() == 0,
            old(self).visible && old(self).disabled ==> final(self).active == old(self).active
                && final(self).state == disabled_state(old(self).state, RadioState::Disabled, hit)
                && effects@ == opening_effects::<RadioState, RadioEvent>() + disabled_effects::<RadioState, RadioEvent>(RadioState::Disabled, hit),
            old(self).visible && !old(self).disabled ==> ({
                let (a, s, fx) = radio_hit(*old(self), hit);
                final(self).active == a && final(self).state == s
                    && effects@ == opening_effects::<RadioState, RadioEvent>() + fx
            }),
    {
        if !self.visible {
            return Vec::new();
        }
        let mut effects = opening();
        let mut more = if self.disabled { self.handle_when_disabled(hit) } else { self.handle_widget_event(hit) };
        effects.append(&mut more);
        effects
    }

    /// Turns the radio on or off as its owner asks; `init` marks the first
    /// setting, which plays no animation.
    pub fn toggle(&mut self, active: bool, init: bool) -> (effects: Vec<RadioEffect>)
        ensures
            same_setup(*old(self), *final(self)),
            final(self).active == active,
            final(self).state == radio_toggle_state(active),
            effects@ == radio_toggle_effects(*old(self), active, init),
    {
        self.active = active;
        self.state = if active { RadioState::Active } else { RadioState::Basic };
        let mut effects: Vec<RadioEffect> = Vec::new();
        if !init {
            push_effect(&mut effects, Effect::Animate(if active { Track::HoverActive } else { Track::HoverOff }));
        }
        let open = self.event_open && self.scoped;
        let clicked = RadioClicked { active, value: self.value.clone() };
        push_emit(&mut effects, open, RadioEvent::Clicked(clicked));
        assert(effects@ =~= radio_toggle_effects(*old(self), active, init));
        effects
    }

    /// Puts the radio in the state it is drawn in.
    pub fn render(&mut self)
        ensures
            same_setup(*old(self), *final(self)),
            final(self).active == old(self).active,
            final(self).state == radio_render_state(old(self).disabled, old(self).active),
    {
        self.state = if self.disabled {
            RadioState::Disabled
        } else if self.active {
            RadioState::Active
        } else {
            RadioState::Basic
        };
    }

    /// Draws the radio: returns its parts in the order they are drawn (the
    /// container, then the radio and the extra view, the radio last where it
    /// is reversed; nothing where the radio is hidden). Drawing gives the
    /// radio the scope its events need even where it is hidden.
    pub fn draw_walk(&mut self) -> (parts: Vec<RadioPart>)
        ensures
            parts@ == radio_draw_parts(*old(self)),
            *final(self) == (GRadio { scoped: true, ..*old(self) }),
    {
        self.scoped = true;
        let mut parts: Vec<RadioPart> = Vec::new();
        if !self.visible {
            return parts;
        }
        parts.push(RadioPart::Container);
        if !self.reverse && self.radio_visible {
            parts.push(RadioPart::Radio);
        }
        if self.extra_visible {
            parts.push(RadioPart::Extra);
        }
        if self.reverse && self.radio_visible {
            parts.push(RadioPart::Radio);
        }
        assert(parts@ =~= radio_draw_parts(*self));
        parts
    }
}

/// An active radio ignores every hit: its flag and state stay, and it asks
/// for nothing.
pub proof fn lemma_active_radio_ignores_hits(r: GRadio, hit: Hit)
    requires
        r.active,
    ensures
        radio_hit(r, hit) == (true, r.state, Seq::<RadioEffect>::empty()),
{
}

/// A radio that is not disabled turns active exactly when a finger that
/// hovers is released over it, and a radio never turns itself off.
pub proof fn lemma_radio_activation(r: GRadio, hit: Hit)
    ensures
        radio_hit(r, hit).0 == (r.active || (hit matches Hit::FingerUp(e) && e.is_over && e.has_hovers)),
{
}

/// A radio turned on or off by its owner shows the state it is then drawn in.
pub proof fn lemma_radio_toggle_matches_render(active: bool)
    ensures
        radio_toggle_state(active) == radio_render_state(false, active),
{
}

/// The click a radio reports after it turned active says that it is active.
pub proof fn lemma_radio_click_reports_active(r: GRadio, e: FingerUp)
    requires
        !r.active,
        e.is_over,
        e.has_hovers,
        radio_open(r),
    ensures
        radio_hit(r, Hit::FingerUp(e)).2.last() == Effect::<RadioState, RadioEvent>::Emit(
            RadioEvent::Clicked(RadioClicked { active: true, value: r.value }),
        ),
{
}

/// A radio state and the view state it is shown in stand for each other.
pub proof fn lemma_radio_view_roundtrip(s: RadioState, v: ViewState)
    ensures
        RadioState::spec_from_view(s.spec_to_view()) == s,
        RadioState::spec_from_view(v).spec_to_view() == v,
{
}

/// The state whose styles a block of the radio's document sets, by the
/// block's name; a block under any other name sets none.
pub open spec fn radio_named_state(name: Seq<char>) -> Option<RadioState> {
    if name == "basic"@ {
        Some(RadioState::Basic)
    } else if name == "hover"@ {
        Some(RadioState::Hover)
    } else if name == "active"@ {
        Some(RadioState::Active)
    } else if name == "disabled"@ {
        Some(RadioState::Disabled)
    } else {
        None
    }
}

impl GRadio {
    /// After a live update of its document, the radio files the styles of each
    /// named block under the state the block names: the state for a block
    /// named `prefix`, if it names one.
    pub fn after_apply(prefix: &String) -> (r: Option<RadioState>)
        ensures
            r == radio_named_state(prefix@),
    {
        if is_named(prefix, "basic") {
            Some(RadioState::Basic)
        } else if is_named(prefix, "hover") {
            Some(RadioState::Hover)
        } else if is_named(prefix, "active") {
            Some(RadioState::Active)
        } else if is_named(prefix, "disabled") {
            Some(RadioState::Disabled)
        } else {
            None
        }
    }
}

/// The state a radio's text is shown in: disabled with the radio, basic
/// otherwise.
pub open spec fn radio_label(s: RadioState) -> LabelState {
    match s {
        RadioState::Disabled => LabelState::Disabled,
        _ => LabelState::Basic,
    }
}

impl From<RadioState> for LabelState {
    fn from(value: RadioState) -> (r: LabelState) {
        match value {
            RadioState::Basic | RadioState::Hover | RadioState::Active => LabelState::Basic,
            RadioState::Disabled => LabelState::Disabled,
        }
    }
}

impl vstd::std_specs::convert::FromSpecImpl<RadioState> for LabelState {
    open spec fn obeys_from_spec() -> bool {
        true
    }

    open spec fn from_spec(v: RadioState) -> LabelState {
        radio_label(v)
    }
}

/// With its animation open, a radio that is not active shows hover while the
/// pointer is over it and basic once the pointer has left it or a finger was
/// released away from it; a release that activates it shows it active.
pub proof fn lemma_radio_hit_states(r: GRadio, hit: Hit)
    requires
        r.animation_open,
        !r.active,
    ensures
        hit is FingerHoverIn ==> radio_hit(r, hit).1 == RadioState::Hover,
        hit is FingerHoverOut ==> radio_hit(r, hit).1 == RadioState::Basic,
        hit matches Hit::FingerUp(e) ==> radio_hit(r, hit).1 == (if e.is_over && e.has_hovers {
            RadioState::Active
        } else {
            RadioState::Basic
        }),
        radio_hit(r, hit).0 ==> radio_hit(r, hit).1 == RadioState::Active,
{
}

} // verus!
