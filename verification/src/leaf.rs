//! The states and parts of a tree, of its leaves and of the views and icons
//! they show.

use vstd::prelude::*;
use crate::state::{ComponentState, LabelState, SvgState, ViewState};

verus! {

/// The state of a tree: it has only one.
#[derive(Clone, Copy, Debug, PartialEq, Eq, Hash)]
pub enum TreeState {
    Basic,
}

impl ComponentState for TreeState {
    open spec fn spec_is_disabled(&self) -> bool {
        false
    }

    fn is_disabled(&self) -> (r: bool) {
        false
    }
}

impl From<TreeState> for ViewState {
    fn from(value: TreeState) -> (r: ViewState) {
        ViewState::Basic
    }
}

impl vstd::std_specs::convert::FromSpecImpl<TreeState> for ViewState {
    open spec fn obeys_from_spec() -> bool {
        true
    }

    open spec fn from_spec(v: TreeState) -> ViewState {
        ViewState::Basic
    }
}

impl TreeState {
    /// The tree state a view state stands for; only a basic view stands for one.
    pub fn from_view(value: ViewState) -> (r: TreeState)
        requires
            value is Basic,
        ensures
            r == TreeState::Basic,
    {
        TreeState::Basic
    }
}

/// The parts of a tree that carry a style of their own.
#[derive(Clone, Copy, Debug, PartialEq, Eq, Hash)]
pub enum TreePart {
    Container,
    Body,
}

/// The state of a leaf of a tree.
#[derive(Clone, Copy, Debug, PartialEq, Eq, Hash)]
pub enum LeafState {
    Basic,
    Hover,
    Active,
    Disabled,
}

impl ComponentState for LeafState {
    open spec fn spec_is_disabled(&self) -> bool {
        false
    }

    fn is_disabled(&self) -> (r: bool) {
        false
    }
}

impl LeafState {
    /// The state the leaf's views show.
    pub open spec fn spec_to_view(self) -> ViewState {
        match self {
            LeafState::Basic => ViewState::Basic,
            LeafState::Hover => ViewState::Hover,
            LeafState::Active => ViewState::Pressed,
            LeafState::Disabled => ViewState::Disabled,
        }
    }

    /// The leaf state a view state stands for.
    pub open spec fn spec_from_view(v: ViewState) -> LeafState {
        match v {
            ViewState::Basic => LeafState::Basic,
            ViewState::Hover => LeafState::Hover,
            ViewState::Pressed => LeafState::Active,
            ViewState::Disabled => LeafState::Disabled,
        }
    }

    /// The state the leaf's icon shows.
    pub open spec fn spec_to_svg(self) -> SvgState {
        match self {
            LeafState::Basic => SvgState::Basic,
            LeafState::Hover => SvgState::Hover,
            LeafState::Active => SvgState::Pressed,
            LeafState::Disabled => SvgState::Disabled,
        }
    }
}

impl From<LeafState> for ViewState {
    fn from(value: LeafState) -> (r: ViewState) {
        match value {
            LeafState::Basic => ViewState::Basic,
            LeafState::Hover => ViewState::Hover,
            LeafState::Active => ViewState::Pressed,
            LeafState::Disabled => ViewState::Disabled,
        }
    }
}

impl vstd::std_specs::convert::FromSpecImpl<LeafState> for ViewState {
    open spec fn obeys_from_spec() -> bool {
        true
    }

    open spec fn from_spec(v: LeafState) -> ViewState {
        v.spec_to_view()
    }
}

impl From<ViewState> for LeafState {
    fn from(value: ViewState) -> (r: LeafState) {
        match value {
            ViewState::Basic => LeafState::Basic,
            ViewState::Hover => LeafState::Hover,
            ViewState::Pressed => LeafState::Active,
            ViewState::Disabled => LeafState::Disabled,
        }
    }
}

impl vstd::std_specs::convert::FromSpecImpl<ViewState> for LeafState {
    open spec fn obeys_from_spec() -> bool {
        true
    }

    open spec fn from_spec(v: ViewState) -> LeafState {
        LeafState::spec_from_view(v)
    }
}

impl From<LeafState> for SvgState {
    fn from(value: LeafState) -> (r: SvgState) {
        match value {
            LeafState::Basic => SvgState::Basic,
            LeafState::Hover => SvgState::Hover,
            LeafState::Active => SvgState::Pressed,
            LeafState::Disabled => SvgState::Disabled,
        }
    }
}

impl vstd::std_specs::convert::FromSpecImpl<LeafState> for SvgState {
    open spec fn obeys_from_spec() -> bool {
        true
    }

    open spec fn from_spec(v: LeafState) -> SvgState {
        v.spec_to_svg()
    }
}

/// The parts of a leaf that carry a style of their own.
#[derive(Clone, Copy, Debug, PartialEq, Eq, Hash)]
pub enum LeafPart {
    Container,
    Icon,
    Text,
}

/// A leaf state and the view state it is shown in stand for each other.
pub proof fn lemma_leaf_view_roundtrip(s: LeafState, v: ViewState)
    ensures
        LeafState::spec_from_view(s.spec_to_view()) == s,
        LeafState::spec_from_view(v).spec_to_view() == v,
{
}

/// The state a leaf's text is shown in: disabled with the leaf, basic
/// otherwise.
pub open spec fn leaf_label(s: LeafState) -> LabelState {
    match s {
        LeafState::Disabled => LabelState::Disabled,
        _ => LabelState::Basic,
    }
}

impl From<LeafState> for LabelState {
    fn from(value: LeafState) -> (r: LabelState) {
        match value {
            LeafState::Basic | LeafState::Hover | LeafState::Active => LabelState::Basic,
            LeafState::Disabled => LabelState::Disabled,
        }
    }
}

impl vstd::std_specs::convert::FromSpecImpl<LeafState> for LabelState {
    open spec fn obeys_from_spec() -> bool {
        true
    }

    open spec fn from_spec(v: LeafState) -> LabelState {
        leaf_label(v)
    }
}

} // verus!
