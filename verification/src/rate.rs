//! The rating: a row of stars. Its value is a fraction the host keeps; what
//! is decided here is which state it shows.

use vstd::prelude::*;
use crate::text::is_named;
use crate::state::ComponentState;
use crate::widget::{disabled_effects, disabled_state, handle_disabled, opening, opening_effects, Effect, Hit, Track};

verus! {

/// The state of a rating.
#[derive(Clone, Copy, Debug, PartialEq, Eq, Hash)]
pub enum RateState {
    Basic,
    Hover,
    Pressed,
    Disabled,
}

impl ComponentState for RateState {
    open spec fn spec_is_disabled(&self) -> bool {
        *self is Disabled
    }

    fn is_disabled(&self) -> (r: bool) {
        match self {
            RateState::Disabled => true,
            _ => false,
        }
    }
}

impl RateState {
    /// The animator track whose values show the state.
    pub open spec fn spec_track(self) -> Track {
        match self {
            RateState::Basic => Track::HoverOff,
            RateState::Hover => Track::HoverOn,
            RateState::Pressed => Track::HoverPressed,
            RateState::Disabled => Track::HoverDisabled,
        }
    }

    /// The animator track whose values show the state.
    pub fn track(&self) -> (t: Track)
        ensures
            t == self.spec_track(),
    {
        match self {
            RateState::Basic => Track::HoverOff,
            RateState::Hover => Track::HoverOn,
            RateState::Pressed => Track::HoverPressed,
            RateState::Disabled => Track::HoverDisabled,
        }
    }
}

/// The events a rating sends; they carry the value the host keeps.
#[derive(Clone, Copy, Debug, PartialEq, Eq)]
pub enum RateEvent {
    HoverIn,
    HoverOut,
    Changed,
    FingerUp,
    FingerDown,
}

/// The effects a rating asks for.
pub type RateEffect = Effect<RateState, RateEvent>;

/// A rating: what its event handling reads and changes.
#[derive(Clone, Copy, Debug, PartialEq, Eq)]
pub struct GRate {
    pub visible: bool,
    pub disabled: bool,
    /// Whether the rating has been drawn into a scope.
    pub scoped: bool,
    pub state: RateState,
}

impl GRate {
    /// Handles an event on a rating: an invisible rating ignores it; a
    /// visible one writes its animator; a disabled one shows its disabled
    /// state on a hover; an enabled one does nothing more with the hit.
    pub fn handle_event(&mut self, hit: Hit) -> (effects: Vec<RateEffect>)
        ensures
            !old(self).visible ==> *final(self) == *old(self) && effects@.len() == 0,
            old(self).visible && old(self).disabled ==>
                *final(self) == (GRate { state: disabled_state(old(self).state, RateState::Disabled, hit), ..*old(self) })
                && effects@ == opening_effects::<RateState, RateEvent>() + disabled_effects::<RateState, RateEvent>(RateState::Disabled, hit),
            old(self).visible && !old(self).disabled ==> *final(self) == *old(self)
                && effects@ == opening_effects::<RateState, RateEvent>(),
    {
        if !self.visible {
            return Vec::new();
        }
        let mut effects = opening();
        if self.disabled {
            self.state = handle_disabled(self.state, RateState::Disabled, hit, &mut effects);
        }
        effects
    }
}

impl GRate {
    /// Draws the rating where it is visible, which gives it the scope its events
    /// need; a hidden rating is not drawn and gets no scope. Returns whether it
    /// was drawn.
    pub fn draw_walk(&mut self) -> (drawn: bool)
        ensures
            drawn == old(self).visible,
            *final(self) == (GRate { scoped: old(self).scoped || old(self).visible, ..*old(self) }),
    {
        if self.visible {
            self.scoped = true;
        }
        self.visible
    }
}

/// The state whose styles a block of the rating's document sets, by the
/// block's name; a block under any other name sets none.
pub open spec fn rate_named_state(name: Seq<char>) -> Option<RateState> {
    if name == "basic"@ {
        Some(RateState::Basic)
    } else if name == "hover"@ {
        Some(RateState::Hover)
    } else if name == "pressed"@ {
        Some(RateState::Pressed)
    } else if name == "disabled"@ {
        Some(RateState::Disabled)
    } else {
        None
    }
}

impl GRate {
    /// After a live update of its document, the rating files the styles of each
    /// named block under the state the block names: the state for a block
    /// named `prefix`, if it names one.
    pub fn after_apply(prefix: &String) -> (r: Option<RateState>)
        ensures
            r == rate_named_state(prefix@),
    {
        if is_named(prefix, "basic") {
            Some(RateState::Basic)
        } else if is_named(prefix, "hover") {
            Some(RateState::Hover)
        } else if is_named(prefix, "pressed") {
            Some(RateState::Pressed)
        } else if is_named(prefix, "disabled") {
            Some(RateState::Disabled)
        } else {
            None
        }
    }
}

} // verus!
