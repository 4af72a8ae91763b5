//! The progress bar. Its value is a fraction the host keeps; what is decided
//! here is which state it shows.

use vstd::prelude::*;
use crate::text::is_named;
use crate::state::ComponentState;
use crate::widget::Track;

verus! {

/// The state of a progress bar.
#[derive(Clone, Copy, Debug, PartialEq, Eq, Hash)]
pub enum ProgressState {
    Basic,
    Loading,
    Disabled,
}

impl ComponentState for ProgressState {
    open spec fn spec_is_disabled(&self) -> bool {
        *self is Disabled
    }

    fn is_disabled(&self) -> (r: bool) {
        match self {
            ProgressState::Disabled => true,
            _ => false,
        }
    }
}

impl ProgressState {
    /// The animator track whose values show the state.
    pub open spec fn spec_track(self) -> Track {
        match self {
            ProgressState::Basic => Track::LoadingOff,
            ProgressState::Loading => Track::LoadingOn,
            ProgressState::Disabled => Track::LoadingDisabled,
        }
    }

    /// The animator track whose values show the state.
    pub fn track(&self) -> (t: Track)
        ensures
            t == self.spec_track(),
    {
        match self {
            ProgressState::Basic => Track::LoadingOff,
            ProgressState::Loading => Track::LoadingOn,
            ProgressState::Disabled => Track::LoadingDisabled,
        }
    }
}

/// A progress bar: what its drawing decides on.
#[derive(Clone, Copy, Debug, PartialEq, Eq)]
pub struct GProgress {
    pub visible: bool,
    pub disabled: bool,
    /// Whether the bar has been drawn into a scope.
    pub scoped: bool,
    pub state: ProgressState,
}

impl GProgress {
    /// Puts a disabled bar in its disabled state; an enabled one keeps its state.
    pub fn render(&mut self)
        ensures
            *final(self) == (GProgress { state: if old(self).disabled { ProgressState::Disabled } else { old(self).state }, ..*old(self) }),
    {
        if self.disabled {
            self.state = ProgressState::Disabled;
        }
    }
}

impl GProgress {
    /// Draws the progress bar where it is visible, which gives it the scope its events
    /// need; a hidden progress bar is not drawn and gets no scope. Returns whether it
    /// was drawn.
    pub fn draw_walk(&mut self) -> (drawn: bool)
        ensures
            drawn == old(self).visible,
            *final(self) == (GProgress { scoped: old(self).scoped || old(self).visible, ..*old(self) }),
    {
        if self.visible {
            self.scoped = true;
        }
        self.visible
    }
}

/// The state whose styles a block of the progress bar's document sets, by the
/// block's name; a block under any other name sets none.
pub open spec fn progress_named_state(name: Seq<char>) -> Option<ProgressState> {
    if name == "basic"@ {
        Some(ProgressState::Basic)
    } else if name == "loading"@ {
        Some(ProgressState::Loading)
    } else if name == "disabled"@ {
        Some(ProgressState::Disabled)
    } else {
        None
    }
}

impl GProgress {
    /// After a live update of its document, the progress bar files the styles of each
    /// named block under the state the block names: the state for a block
    /// named `prefix`, if it names one.
    pub fn after_apply(prefix: &String) -> (r: Option<ProgressState>)
        ensures
            r == progress_named_state(prefix@),
    {
        if is_named(prefix, "basic") {
            Some(ProgressState::Basic)
        } else if is_named(prefix, "loading") {
            Some(ProgressState::Loading)
        } else if is_named(prefix, "disabled") {
            Some(ProgressState::Disabled)
        } else {
            None
        }
    }
}

} // verus!
