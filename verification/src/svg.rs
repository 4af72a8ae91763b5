//! The icon: an image drawn from a source file, which reacts to the pointer.

use vstd::prelude::*;
use crate::text::is_named;
use crate::state::{Style, SvgState};
use crate::widget::{
    disabled_effects, disabled_state, emit, handle_disabled, opening, opening_effects, push_effect,
    push_emit, push_switch, switch_effects, switched, Effect, Hit, Track,
};

verus! {

impl SvgState {
    /// The animator track whose values show the state.
    pub open spec fn spec_track(self) -> Track {
        match self {
            SvgState::Basic => Track::HoverOff,
            SvgState::Hover => Track::HoverOn,
            SvgState::Pressed => Track::HoverPressed,
            SvgState::Disabled => Track::HoverDisabled,
        }
    }

    /// The animator track whose values show the state.
    pub fn track(&self) -> (t: Track)
        ensures
            t == self.spec_track(),
    {
        match self {
            SvgState::Basic => Track::HoverOff,
            SvgState::Hover => Track::HoverOn,
            SvgState::Pressed => Track::HoverPressed,
            SvgState::Disabled => Track::HoverDisabled,
        }
    }
}

/// The parts of an icon that carry a style of their own.
#[derive(Clone, Copy, Debug, PartialEq, Eq, Hash)]
pub enum SvgPart {
    Container,
    Svg,
}

/// The styles of an icon, one per state.
#[derive(Clone, Copy, Debug, PartialEq, Eq)]
pub struct SvgStyle<B> {
    pub basic: B,
    pub hover: B,
    pub pressed: B,
    pub disabled: B,
}

impl<B> Style for SvgStyle<B> {
    type State = SvgState;
    type Basic = B;

    open spec fn spec_get(&self, state: SvgState) -> B {
        match state {
            SvgState::Basic => self.basic,
            SvgState::Hover => self.hover,
            SvgState::Pressed => self.pressed,
            SvgState::Disabled => self.disabled,
        }
    }

    fn get(&self, state: SvgState) -> (r: &B) {
        match state {
            SvgState::Basic => &self.basic,
            SvgState::Hover => &self.hover,
            SvgState::Pressed => &self.pressed,
            SvgState::Disabled => &self.disabled,
        }
    }

    fn get_mut(&mut self, state: SvgState) -> (r: &mut B) {
        match state {
            SvgState::Basic => &mut self.basic,
            SvgState::Hover => &mut self.hover,
            SvgState::Pressed => &mut self.pressed,
            SvgState::Disabled => &mut self.disabled,
        }
    }
}

/// The events an icon sends.
#[derive(Clone, Copy, Debug, PartialEq, Eq)]
pub enum SvgEvent {
    HoverIn,
    HoverOut,
    FingerUp,
    FingerDown,
    Clicked,
}

/// The effects an icon asks for.
pub type SvgEffect = Effect<SvgState, SvgEvent>;

/// An icon: its styles, its source and what its event handling reads and changes.
pub struct GSvg<B> {
    pub style: SvgStyle<B>,
    pub visible: bool,
    pub disabled: bool,
    pub grab_key_focus: bool,
    pub event_open: bool,
    pub animation_open: bool,
    /// Whether the icon has been drawn into a scope, which its events need.
    pub scoped: bool,
    /// The source file of the image.
    pub src: String,
    /// The source file the image is drawn from.
    pub drawn_src: String,
    pub state: SvgState,
}

/// Whether an icon's events reach its listeners.
pub open spec fn svg_open<B>(s: GSvg<B>) -> bool {
    s.event_open && s.scoped
}

/// What an icon that is not disabled does with a hit: its state and the
/// effects it asks for.
pub open spec fn svg_hit<B>(s: GSvg<B>, hit: Hit) -> (SvgState, Seq<SvgEffect>) {
    let open = svg_open(s);
    let anim = s.animation_open;
    match hit {
        Hit::FingerDown => (
            switched(anim, s.state, SvgState::Pressed),
            switch_effects(anim, true) + (if s.grab_key_focus { seq![Effect::KeyFocus] } else { Seq::empty() })
                + emit(open, SvgEvent::FingerDown),
        ),
        Hit::FingerHoverIn => {
            let st = switched(anim, s.state, SvgState::Hover);
            (st, switch_effects(anim, true) + seq![Effect::Cursor(st)] + emit(open, SvgEvent::HoverIn))
        },
        Hit::FingerHoverOut => (
            switched(anim, s.state, SvgState::Basic),
            switch_effects(anim, true) + emit(open, SvgEvent::HoverOut),
        ),
        Hit::FingerUp(e) => if !e.is_over {
            (switched(anim, s.state, SvgState::Basic), switch_effects(anim, true) + emit(open, SvgEvent::FingerUp))
        } else if e.has_hovers {
            (
                switched(anim, s.state, SvgState::Hover),
                switch_effects(anim, true) + seq![Effect::Animate(Track::HoverOn)] + emit(open, SvgEvent::Clicked),
            )
        } else {
            (
                switched(anim, s.state, SvgState::Basic),
                switch_effects(anim, true) + seq![Effect::Animate(Track::HoverOff)] + emit(open, SvgEvent::Clicked),
            )
        },
        _ => (s.state, Seq::empty()),
    }
}

/// Whether two icons agree on everything but their state.
pub open spec fn svg_same_setup<B>(a: GSvg<B>, b: GSvg<B>) -> bool {
    &&& a.style == b.style
    &&& a.visible == b.visible
    &&& a.disabled == b.disabled
    &&& a.grab_key_focus == b.grab_key_focus
    &&& a.event_open == b.event_open
    &&& a.animation_open == b.animation_open
    &&& a.scoped == b.scoped
    &&& a.src == b.src
    &&& a.drawn_src == b.drawn_src
}

impl<B: Copy> GSvg<B> {
    /// Takes over the styles, visibility, disabled flag, source and state of
    /// another icon.
    pub fn clone_from_ptr(&mut self, other: &GSvg<B>)
        ensures
            final(self).style == other.style,
            final(self).visible == other.visible,
            final(self).disabled == other.disabled,
            final(self).src@ == other.src@,
            final(self).state == other.state,
            final(self).grab_key_focus == old(self).grab_key_focus,
            final(self).event_open == old(self).event_open,
            final(self).animation_open == old(self).animation_open,
            final(self).scoped == old(self).scoped,
            final(self).drawn_src == old(self).drawn_src,
    {
        self.style = other.style;
        self.visible = other.visible;
        self.disabled = other.disabled;
        self.src = other.src.clone();
        self.state = other.state;
    }

    /// Handles a hit on an icon that is not disabled.
    pub fn handle_widget_event(&mut self, hit: Hit) -> (effects: Vec<SvgEffect>)
        ensures
            svg_same_setup(*old(self), *final(self)),
            (final(self).state, effects@) == svg_hit(*old(self), hit),
    {
        let mut effects: Vec<SvgEffect> = Vec::new();
        let open = self.event_open && self.scoped;
        let anim = self.animation_open;
        match hit {
            Hit::FingerDown => {
                push_switch(&mut effects, anim, true);
                if anim {
                    self.state = SvgState::Pressed;
                }
                if self.grab_key_focus {
                    push_effect(&mut effects, Effect::KeyFocus);
                }
                push_emit(&mut effects, open, SvgEvent::FingerDown);
            },
            Hit::FingerHoverIn => {
                push_switch(&mut effects, anim, true);
                if anim {
                    self.state = SvgState::Hover;
                }
                push_effect(&mut effects, Effect::Cursor(self.state));
                push_emit(&mut effects, open, SvgEvent::HoverIn);
            },
            Hit::FingerHoverOut => {
                push_switch(&mut effects, anim, true);
                if anim {
                    self.state = SvgState::Basic;
                }
                push_emit(&mut effects, open, SvgEvent::HoverOut);
            },
            Hit::FingerUp(e) => {
                push_switch(&mut effects, anim, true);
                if !e.is_over {
                    if anim {
                        self.state = SvgState::Basic;
                    }
                    push_emit(&mut effects, open, SvgEvent::FingerUp);
                } else {
                    if e.has_hovers {
                        if anim {
                            self.state = SvgState::Hover;
                        }
                        push_effect(&mut effects, Effect::Animate(Track::HoverOn));
                    } else {
                        if anim {
                            self.state = SvgState::Basic;
                        }
                        push_effect(&mut effects, Effect::Animate(Track::HoverOff));
                    }
                    push_emit(&mut effects, open, SvgEvent::Clicked);
                }
            },
            _ => {},
        }
        proof {
            let (s, fx) = svg_hit(*old(self), hit);
            assert(effects@ =~= fx);
        }
        effects
    }

    /// Handles a hit on a disabled icon.
    pub fn handle_when_disabled(&mut self, hit: Hit) -> (effects: Vec<SvgEffect>)
        ensures
            svg_same_setup(*old(self), *final(self)),
            final(self).state == disabled_state(old(self).state, SvgState::Disabled, hit),
            effects@ == disabled_effects::<SvgState, SvgEvent>(SvgState::Disabled, hit),
    {
        let mut effects: Vec<SvgEffect> = Vec::new();
        self.state = handle_disabled(self.state, SvgState::Disabled, hit, &mut effects);
        assert(effects@ =~= disabled_effects::<SvgState, SvgEvent>(SvgState::Disabled, hit));
        effects
    }

    /// Handles an event on an icon: an invisible icon ignores it; a visible
    /// one writes its animator, then handles the hit as a disabled or as an
    /// enabled icon.
    pub fn handle_event(&mut self, hit: Hit) -> (effects: Vec<SvgEffect>)
        ensures
            svg_same_setup(*old(self), *final(self)),
            !old(self).visible ==> final(self).state == old(self).state && effects@.len() == 0,
            old(self).visible && old(self).disabled ==>
                final(self).state == disabled_state(old(self).state, SvgState::Disabled, hit)
                && effects@ == opening_effects::<SvgState, SvgEvent>() + disabled_effects::<SvgState, SvgEvent>(SvgState::Disabled, hit),
            old(self).visible && !old(self).disabled ==> ({
                let (s, fx) = svg_hit(*old(self), hit);
                final(self).state == s && effects@ == opening_effects::<SvgState, SvgEvent>() + fx
            }),
    {
        if !self.visible {
            return Vec::new();
        }
        let mut effects = opening();
        let mut more = if self.disabled { self.handle_when_disabled(hit) } else { self.handle_widget_event(hit) };
        effects.append(&mut more);
        effects
    }

    /// Puts a disabled icon in its disabled state (an enabled icon keeps its
    /// state) and has the image drawn from the icon's source.
    pub fn render(&mut self)
        ensures
            svg_same_setup(*old(self), (GSvg { drawn_src: old(self).drawn_src, ..*final(self) })),
            final(self).state == (if old(self).disabled { SvgState::Disabled } else { old(self).state }),
            final(self).drawn_src@ == old(self).src@,
    {
        if self.disabled {
            self.state = SvgState::Disabled;
        }
        if self.drawn_src != self.src {
            self.drawn_src = self.src.clone();
        }
    }
}

/// An icon that is not disabled and whose animation is open ends every hit
/// but a press, a move, a long press or a key in its basic or hover state;
/// a press shows its pressed state.
pub proof fn lemma_svg_hit_states<B>(s: GSvg<B>, hit: Hit)
    requires
        s.animation_open,
    ensures
        hit is FingerDown ==> svg_hit(s, hit).0 == SvgState::Pressed,
        hit is FingerHoverIn ==> svg_hit(s, hit).0 == SvgState::Hover,
        hit is FingerHoverOut ==> svg_hit(s, hit).0 == SvgState::Basic,
        hit is FingerUp ==> (svg_hit(s, hit).0 == SvgState::Basic || svg_hit(s, hit).0 == SvgState::Hover),
{
}

/// An icon with its animation closed never changes state on a hit.
pub proof fn lemma_svg_closed_animation_keeps_state<B>(s: GSvg<B>, hit: Hit)
    requires
        !s.animation_open,
    ensures
        svg_hit(s, hit).0 == s.state,
{
}

impl<B> GSvg<B> {
    /// Draws the icon where it is visible, which gives it the scope its events
    /// need; a hidden icon is not drawn and gets no scope. Returns whether it
    /// was drawn.
    pub fn draw_walk(&mut self) -> (drawn: bool)
        ensures
            drawn == old(self).visible,
            *final(self) == (GSvg { scoped: old(self).scoped || old(self).visible, ..*old(self) }),
    {
        if self.visible {
            self.scoped = true;
        }
        self.visible
    }
}

/// The state whose styles a block of the icon's document sets, by the
/// block's name; a block under any other name sets none.
pub open spec fn svg_named_state(name: Seq<char>) -> Option<SvgState> {
    if name == "basic"@ {
        Some(SvgState::Basic)
    } else if name == "hover"@ {
        Some(SvgState::Hover)
    } else if name == "pressed"@ {
        Some(SvgState::Pressed)
    } else if name == "disabled"@ {
        Some(SvgState::Disabled)
    } else {
        None
    }
}

impl<B> GSvg<B> {
    /// After a live update of its document, the icon files the styles of each
    /// named block under the state the block names: the state for a block
    /// named `prefix`, if it names one.
    pub fn after_apply(prefix: &String) -> (r: Option<SvgState>)
        ensures
            r == svg_named_state(prefix@),
    {
        if is_named(prefix, "basic") {
            Some(SvgState::Basic)
        } else if is_named(prefix, "hover") {
            Some(SvgState::Hover)
        } else if is_named(prefix, "pressed") {
            Some(SvgState::Pressed)
        } else if is_named(prefix, "disabled") {
            Some(SvgState::Disabled)
        } else {
            None
        }
    }
}

} // verus!
