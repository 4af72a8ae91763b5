//! The slider: a bar whose value follows a dragging finger. Which state it is
//! in and what it reports is decided here; the value itself is a fraction the
//! host computes from the finger's position.

use vstd::prelude::*;
use crate::text::is_named;
use crate::state::{ComponentState, Style};
use crate::widget::{
    disabled_effects, disabled_state, emit, handle_disabled, opening, opening_effects, push_effect,
    push_emit, push_switch, switch_effects, switched, Effect, Hit, Track,
};

verus! {

/// The state of a slider.
#[derive(Clone, Copy, Debug, PartialEq, Eq, Hash)]
pub enum SliderState {
    Basic,
    Hover,
    Dragging,
    Disabled,
}

impl ComponentState for SliderState {
    open spec fn spec_is_disabled(&self) -> bool {
        *self is Disabled
    }

    fn is_disabled(&self) -> (r: bool) {
        match self {
            SliderState::Disabled => true,
            _ => false,
        }
    }
}

impl SliderState {
    /// The animator track whose values show the state.
    pub open spec fn spec_track(self) -> Track {
        match self {
            SliderState::Basic => Track::DraggingOff,
            SliderState::Hover => Track::DraggingHover,
            SliderState::Dragging => Track::DraggingOn,
            SliderState::Disabled => Track::DraggingDisabled,
        }
    }

    /// The animator track whose values show the state.
    pub fn track(&self) -> (t: Track)
        ensures
            t == self.spec_track(),
    {
        match self {
            SliderState::Basic => Track::DraggingOff,
            SliderState::Hover => Track::DraggingHover,
            SliderState::Dragging => Track::DraggingOn,
            SliderState::Disabled => Track::DraggingDisabled,
        }
    }
}

/// The styles of a slider, one per state.
#[derive(Clone, Copy, Debug, PartialEq, Eq)]
pub struct SliderStyle<B> {
    pub basic: B,
    pub hover: B,
    pub dragging: B,
    pub disabled: B,
}

impl<B> Style for SliderStyle<B> {
    type State = SliderState;
    type Basic = B;

    open spec fn spec_get(&self, state: SliderState) -> B {
        match state {
            SliderState::Basic => self.basic,
            SliderState::Hover => self.hover,
            SliderState::Dragging => self.dragging,
            SliderState::Disabled => self.disabled,
        }
    }

    fn get(&self, state: SliderState) -> (r: &B) {
        match state {
            SliderState::Basic => &self.basic,
            SliderState::Hover => &self.hover,
            SliderState::Dragging => &self.dragging,
            SliderState::Disabled => &self.disabled,
        }
    }

    fn get_mut(&mut self, state: SliderState) -> (r: &mut B) {
        match state {
            SliderState::Basic => &mut self.basic,
            SliderState::Hover => &mut self.hover,
            SliderState::Dragging => &mut self.dragging,
            SliderState::Disabled => &mut self.disabled,
        }
    }
}

/// The events a slider sends; a change carries the value the host keeps.
#[derive(Clone, Copy, Debug, PartialEq, Eq)]
pub enum SliderEvent {
    HoverIn,
    HoverOut,
    FingerUp,
    FingerDown,
    Changed,
}

/// The effects a slider asks for.
pub type SliderEffect = Effect<SliderState, SliderEvent>;

/// A slider: what its event handling reads and changes.
#[derive(Clone, Copy, Debug, PartialEq, Eq)]
pub struct GSlider {
    pub visible: bool,
    pub disabled: bool,
    pub grab_key_focus: bool,
    pub event_open: bool,
    pub animation_open: bool,
    /// Whether the slider has been drawn into a scope, which its events need.
    pub scoped: bool,
    pub state: SliderState,
}

/// Whether a slider's events reach its listeners.
pub open spec fn slider_open(s: GSlider) -> bool {
    s.event_open && s.scoped
}

/// What a slider that is not disabled does with a hit: its state and the
/// effects it asks for. A move of the finger (after the host took the new
/// value) shows the dragging state.
pub open spec fn slider_hit(s: GSlider, hit: Hit) -> (SliderState, Seq<SliderEffect>) {
    let open = slider_open(s);
    let anim = s.animation_open;
    match hit {
        Hit::FingerDown => (
            switched(anim, s.state, SliderState::Dragging),
            switch_effects(anim, true) + (if s.grab_key_focus { seq![Effect::KeyFocus] } else { Seq::empty() })
                + seq![Effect::Animate(Track::DraggingOn)] + emit(open, SliderEvent::FingerDown),
        ),
        Hit::FingerHoverIn => (
            switched(anim, s.state, SliderState::Hover),
            seq![Effect::Cursor(s.state)] + switch_effects(anim, true)
                + seq![Effect::Animate(Track::DraggingHover)] + emit(open, SliderEvent::HoverIn),
        ),
        Hit::FingerHoverOut => (
            switched(anim, s.state, SliderState::Basic),
            switch_effects(anim, true) + seq![Effect::Animate(Track::DraggingOff)] + emit(open, SliderEvent::HoverOut),
        ),
        Hit::FingerUp(e) => if !e.is_over {
            (
                switched(anim, s.state, SliderState::Basic),
                switch_effects(anim, true) + seq![Effect::Animate(Track::DraggingOff)] + emit(open, SliderEvent::FingerUp),
            )
        } else if e.has_hovers {
            (
                switched(anim, s.state, SliderState::Hover),
                switch_effects(anim, true) + seq![Effect::Animate(Track::DraggingHover)] + emit(open, SliderEvent::Changed),
            )
        } else {
            (
                switched(anim, s.state, SliderState::Basic),
                switch_effects(anim, true) + seq![Effect::Animate(Track::DraggingOff)] + emit(open, SliderEvent::Changed),
            )
        },
        Hit::FingerMove => (switched(anim, s.state, SliderState::Dragging), switch_effects(anim, true)),
        _ => (s.state, Seq::empty()),
    }
}

impl GSlider {
    /// The change a slider reports, where its events reach its listeners.
    pub fn active_changed(&self) -> (e: Option<SliderEvent>)
        ensures
            e == (if slider_open(*self) { Some(SliderEvent::Changed) } else { None }),
    {
        if self.event_open && self.scoped {
            Some(SliderEvent::Changed)
        } else {
            None
        }
    }

    /// Handles a hit on a slider that is not disabled.
    pub fn handle_widget_event(&mut self, hit: Hit) -> (effects: Vec<SliderEffect>)
        ensures
            (final(self).state, effects@) == slider_hit(*old(self), hit),
            *final(self) == (GSlider { state: final(self).state, ..*old(self) }),
    {
        let mut effects: Vec<SliderEffect> = Vec::new();
        let open = self.event_open && self.scoped;
        let anim = self.animation_open;
        match hit {
            Hit::FingerDown => {
                push_switch(&mut effects, anim, true);
                if anim {
                    self.state = SliderState::Dragging;
                }
                if self.grab_key_focus {
                    push_effect(&mut effects, Effect::KeyFocus);
                }
                push_effect(&mut effects, Effect::Animate(Track::DraggingOn));
                push_emit(&mut effects, open, SliderEvent::FingerDown);
            },
            Hit::FingerHoverIn => {
                push_effect(&mut effects, Effect::Cursor(self.state));
                push_switch(&mut effects, anim, true);
                if anim {
                    self.state = SliderState::Hover;
                }
                push_effect(&mut effects, Effect::Animate(Track::DraggingHover));
                push_emit(&mut effects, open, SliderEvent::HoverIn);
            },
            Hit::FingerHoverOut => {
                push_switch(&mut effects, anim, true);
                if anim {
                    self.state = SliderState::Basic;
                }
                push_effect(&mut effects, Effect::Animate(Track::DraggingOff));
                push_emit(&mut effects, open, SliderEvent::HoverOut);
            },
            Hit::FingerUp(e) => {
                push_switch(&mut effects, anim, true);
                if !e.is_over {
                    if anim {
                        self.state = SliderState::Basic;
                    }
                    push_effect(&mut effects, Effect::Animate(Track::DraggingOff));
                    push_emit(&mut effects, open, SliderEvent::FingerUp);
                } else {
                    if e.has_hovers {
                        if anim {
                            self.state = SliderState::Hover;
                        }
                        push_effect(&mut effects, Effect::Animate(Track::DraggingHover));
                    } else {
                        if anim {
                            self.state = SliderState::Basic;
                        }
                        push_effect(&mut effects, Effect::Animate(Track::DraggingOff));
                    }
                    push_emit(&mut effects, open, SliderEvent::Changed);
                }
            },
            Hit::FingerMove => {
                push_switch(&mut effects, anim, true);
                if anim {
                    self.state = SliderState::Dragging;
                }
            },
            _ => {},
        }
        proof {
            let (s, fx) = slider_hit(*old(self), hit);
            assert(effects@ =~= fx);
        }
        effects
    }

    /// Handles a hit on a disabled slider.
    pub fn handle_when_disabled(&mut self, hit: Hit) -> (effects: Vec<SliderEffect>)
        ensures
            *final(self) == (GSlider { state: disabled_state(old(self).state, SliderState::Disabled, hit), ..*old(self) }),
            effects@ == disabled_effects::<SliderState, SliderEvent>(SliderState::Disabled, hit),
    {
        let mut effects: Vec<SliderEffect> = Vec::new();
        self.state = handle_disabled(self.state, SliderState::Disabled, hit, &mut effects);
        assert(effects@ =~= disabled_effects::<SliderState, SliderEvent>(SliderState::Disabled, hit));
        effects
    }

    /// Handles an event on a slider: an invisible slider ignores it; a visible
    /// one writes its animator, then handles the hit as a disabled or as an
    /// enabled slider.
    pub fn handle_event(&mut self, hit: Hit) -> (effects: Vec<SliderEffect>)
        ensures
            !old(self).visible ==> *final(self) == *old(self) && effects@.len() == 0,
            old(self).visible && old(self).disabled ==>
                *final(self) == (GSlider { state: disabled_state(old(self).state, SliderState::Disabled, hit), ..*old(self) })
                && effects@ == opening_effects::<SliderState, SliderEvent>() + disabled_effects::<SliderState, SliderEvent>(SliderState::Disabled, hit),
            old(self).visible && !old(self).disabled ==> ({
                let (s, fx) = slider_hit(*old(self), hit);
                *final(self) == (GSlider { state: s, ..*old(self) }) && effects@ == opening_effects::<SliderState, SliderEvent>() + fx
            }),
    {
        if !self.visible {
            return Vec::new();
        }
        let mut effects = opening();
        let mut more = if self.disabled { self.handle_when_disabled(hit) } else { self.handle_widget_event(hit) };
        effects.append(&mut more);
        effects
    }

    /// Puts a disabled slider in its disabled state; an enabled one keeps its state.
    pub fn render(&mut self)
        ensures
            *final(self) == (GSlider { state: if old(self).disabled { SliderState::Disabled } else { old(self).state }, ..*old(self) }),
    {
        if self.disabled {
            self.state = SliderState::Disabled;
        }
    }
}

/// A slider reports a change exactly when a finger is released over it and
/// its events reach its listeners.
pub proof fn lemma_slider_changed_on_release(s: GSlider, hit: Hit)
    ensures
        slider_hit(s, hit).1.contains(Effect::<SliderState, SliderEvent>::Emit(SliderEvent::Changed))
            <==> (slider_open(s) && (hit matches Hit::FingerUp(e) && e.is_over)),
{
    let fx = slider_hit(s, hit).1;
    let c = Effect::<SliderState, SliderEvent>::Emit(SliderEvent::Changed);
    if slider_open(s) && (hit matches Hit::FingerUp(e) && e.is_over) {
        assert(fx[fx.len() - 1] == c);
    }
    if fx.contains(c) {
        let k = choose|k: int| 0 <= k < fx.len() && fx[k] == c;
        assert(fx[k] == c);
    }
}

/// With its animation open, a slider being pressed or dragged shows its
/// dragging state.
pub proof fn lemma_slider_dragging(s: GSlider, hit: Hit)
    requires
        s.animation_open,
        hit is FingerDown || hit is FingerMove,
    ensures
        slider_hit(s, hit).0 == SliderState::Dragging,
{
}

impl GSlider {
    /// Draws the slider where it is visible, which gives it the scope its events
    /// need; a hidden slider is not drawn and gets no scope. Returns whether it
    /// was drawn.
    pub fn draw_walk(&mut self) -> (drawn: bool)
        ensures
            drawn == old(self).visible,
            *final(self) == (GSlider { scoped: old(self).scoped || old(self).visible, ..*old(self) }),
    {
        if self.visible {
            self.scoped = true;
        }
        self.visible
    }
}

/// The state whose styles a block of the slider's document sets, by the
/// block's name; a block under any other name sets none.
pub open spec fn slider_named_state(name: Seq<char>) -> Option<SliderState> {
    if name == "basic"@ {
        Some(SliderState::Basic)
    } else if name == "hover"@ {
        Some(SliderState::Hover)
    } else if name == "dragging"@ {
        Some(SliderState::Dragging)
    } else if name == "disabled"@ {
        Some(SliderState::Disabled)
    } else {
        None
    }
}

impl GSlider {
    /// After a live update of its document, the slider files the styles of each
    /// named block under the state the block names: the state for a block
    /// named `prefix`, if it names one.
    pub fn after_apply(prefix: &String) -> (r: Option<SliderState>)
        ensures
            r == slider_named_state(prefix@),
    {
        if is_named(prefix, "basic") {
            Some(SliderState::Basic)
        } else if is_named(prefix, "hover") {
            Some(SliderState::Hover)
        } else if is_named(prefix, "dragging") {
            Some(SliderState::Dragging)
        } else if is_named(prefix, "disabled") {
            Some(SliderState::Disabled)
        } else {
            None
        }
    }
}

/// With its animation open, a slider released anywhere is no longer
/// dragging: it shows hover where a hovering finger was released over it,
/// basic otherwise. The pointer over it shows hover, the pointer leaving it
/// basic; closed animation keeps its state under every hit.
pub proof fn lemma_slider_hit_states(s: GSlider, hit: Hit)
    ensures
        s.animation_open && hit is FingerUp ==> slider_hit(s, hit).0 != SliderState::Dragging,
        s.animation_open ==> (hit matches Hit::FingerUp(e) ==> slider_hit(s, hit).0 == (if e.is_over && e.has_hovers {
            SliderState::Hover
        } else {
            SliderState::Basic
        })),
        s.animation_open && hit is FingerHoverIn ==> slider_hit(s, hit).0 == SliderState::Hover,
        s.animation_open && hit is FingerHoverOut ==> slider_hit(s, hit).0 == SliderState::Basic,
        !s.animation_open ==> slider_hit(s, hit).0 == s.state,
{
}

/// A press and then a release away from the slider leave an animated slider
/// in its basic state.
pub proof fn lemma_slider_drag_then_release(s: GSlider, e: crate::widget::FingerUp)
    requires
        s.animation_open,
        !e.is_over,
    ensures
        slider_hit(s, Hit::FingerDown).0 == SliderState::Dragging,
        slider_hit(GSlider { state: slider_hit(s, Hit::FingerDown).0, ..s }, Hit::FingerUp(e)).0 == SliderState::Basic,
{
}

} // verus!
