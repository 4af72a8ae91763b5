//! The state a component is in, the table of styles a component keeps per
//! state, and the state of the plain view that other components pass on to
//! their slots.

use vstd::prelude::*;
use crate::widget::Track;

verus! {

/// The state of a component.
pub trait ComponentState: Sized {
    /// Whether the state is the one a disabled component is in.
    spec fn spec_is_disabled(&self) -> bool;

    /// Whether the state is the one a disabled component is in.
    fn is_disabled(&self) -> (r: bool)
        ensures
            r == self.spec_is_disabled(),
    ;
}

/// A component's styles, one per state.
pub trait Style {
    type State;
    type Basic;

    /// The style of a state.
    spec fn spec_get(&self, state: Self::State) -> Self::Basic;

    /// The style of a state.
    fn get(&self, state: Self::State) -> (r: &Self::Basic)
        ensures
            *r == self.spec_get(state),
    ;

    /// The style of a state, to change in place; the others stay as they are.
    fn get_mut(&mut self, state: Self::State) -> (r: &mut Self::Basic)
        ensures
            *r == old(self).spec_get(state),
            final(self).spec_get(state) == *final(r),
            forall|other: Self::State| other != state ==> final(self).spec_get(other) == old(self).spec_get(other),
    ;
}

/// The state of a plain view.
#[derive(Clone, Copy, Debug, PartialEq, Eq, Hash)]
pub enum ViewState {
    Basic,
    Hover,
    Pressed,
    Disabled,
}

impl ComponentState for ViewState {
    open spec fn spec_is_disabled(&self) -> bool {
        *self is Disabled
    }

    fn is_disabled(&self) -> (r: bool) {
        match self {
            ViewState::Disabled => true,
            _ => false,
        }
    }
}

impl ViewState {
    /// The track of the view's hover animator that shows the state.
    pub open spec fn spec_id(self) -> Track {
        match self {
            ViewState::Basic => Track::HoverOff,
            ViewState::Hover => Track::HoverOn,
            ViewState::Pressed => Track::HoverPressed,
            ViewState::Disabled => Track::HoverOff,
        }
    }

    /// The track of the view's hover animator that shows the state.
    pub fn id(&self) -> (t: Track)
        ensures
            t == self.spec_id(),
    {
        match self {
            ViewState::Basic => Track::HoverOff,
            ViewState::Hover => Track::HoverOn,
            ViewState::Pressed => Track::HoverPressed,
            ViewState::Disabled => Track::HoverOff,
        }
    }
}

/// The state of an icon.
#[derive(Clone, Copy, Debug, PartialEq, Eq, Hash)]
pub enum SvgState {
    Basic,
    Hover,
    Pressed,
    Disabled,
}

impl ComponentState for SvgState {
    open spec fn spec_is_disabled(&self) -> bool {
        *self is Disabled
    }

    fn is_disabled(&self) -> (r: bool) {
        match self {
            SvgState::Disabled => true,
            _ => false,
        }
    }
}

/// The state a plain view is shown in for an icon state: the one of the
/// same name.
pub open spec fn svg_view(s: SvgState) -> ViewState {
    match s {
        SvgState::Basic => ViewState::Basic,
        SvgState::Hover => ViewState::Hover,
        SvgState::Pressed => ViewState::Pressed,
        SvgState::Disabled => ViewState::Disabled,
    }
}

impl From<SvgState> for ViewState {
    fn from(value: SvgState) -> (r: ViewState) {
        match value {
            SvgState::Basic => ViewState::Basic,
            SvgState::Hover => ViewState::Hover,
            SvgState::Pressed => ViewState::Pressed,
            SvgState::Disabled => ViewState::Disabled,
        }
    }
}

impl vstd::std_specs::convert::FromSpecImpl<SvgState> for ViewState {
    open spec fn obeys_from_spec() -> bool {
        true
    }

    open spec fn from_spec(v: SvgState) -> ViewState {
        svg_view(v)
    }
}

/// The state of a text label: it only tells a disabled label from the others.
#[derive(Clone, Copy, Debug, PartialEq, Eq, Hash)]
pub enum LabelState {
    Basic,
    Disabled,
}

} // verus!
