//! The branch of a tree: a header that folds its body of items open or shut
//! when it is clicked.

use vstd::prelude::*;
use crate::text::is_named;
use crate::state::{ComponentState, LabelState, SvgState, ViewState};
use crate::widget::{
    disabled_effects, disabled_state, emit, handle_disabled, opening, opening_effects, push_effect,
    push_emit, push_switch, switch_effects, switched, Effect, Hit, Track,
};

verus! {

/// The state of a branch.
#[derive(Clone, Copy, Debug, PartialEq, Eq, Hash)]
pub enum BranchState {
    Basic,
    Active,
    Disabled,
}

impl ComponentState for BranchState {
    open spec fn spec_is_disabled(&self) -> bool {
        false
    }

    fn is_disabled(&self) -> (r: bool) {
        false
    }
}

impl BranchState {
    /// The animator track whose values show the state.
    pub open spec fn spec_track(self) -> Track {
        match self {
            BranchState::Basic => Track::ActiveOff,
            BranchState::Active => Track::ActiveOn,
            BranchState::Disabled => Track::ActiveDisabled,
        }
    }

    /// The animator track whose values show the state.
    pub fn track(&self) -> (t: Track)
        ensures
            t == self.spec_track(),
    {
        match self {
            BranchState::Basic => Track::ActiveOff,
            BranchState::Active => Track::ActiveOn,
            BranchState::Disabled => Track::ActiveDisabled,
        }
    }

    /// The state the branch's views show.
    pub open spec fn spec_to_view(self) -> ViewState {
        match self {
            BranchState::Basic => ViewState::Basic,
            BranchState::Active => ViewState::Pressed,
            BranchState::Disabled => ViewState::Disabled,
        }
    }

    /// The branch state a view state stands for: a hover is no state of a branch.
    pub open spec fn spec_from_view(v: ViewState) -> BranchState {
        match v {
            ViewState::Basic => BranchState::Basic,
            ViewState::Hover => BranchState::Basic,
            ViewState::Pressed => BranchState::Active,
            ViewState::Disabled => BranchState::Disabled,
        }
    }

    /// The state the branch's icon shows.
    pub open spec fn spec_to_svg(self) -> SvgState {
        match self {
            BranchState::Basic => SvgState::Basic,
            BranchState::Active => SvgState::Pressed,
            BranchState::Disabled => SvgState::Disabled,
        }
    }
}

impl From<BranchState> for ViewState {
    fn from(value: BranchState) -> (r: ViewState) {
        match value {
            BranchState::Basic => ViewState::Basic,
            BranchState::Active => ViewState::Pressed,
            BranchState::Disabled => ViewState::Disabled,
        }
    }
}

impl vstd::std_specs::convert::FromSpecImpl<BranchState> for ViewState {
    open spec fn obeys_from_spec() -> bool {
        true
    }

    open spec fn from_spec(v: BranchState) -> ViewState {
        v.spec_to_view()
    }
}

impl From<ViewState> for BranchState {
    fn from(value: ViewState) -> (r: BranchState) {
        match value {
            ViewState::Basic => BranchState::Basic,
            ViewState::Pressed => BranchState::Active,
            ViewState::Disabled => BranchState::Disabled,
            ViewState::Hover => BranchState::Basic,
        }
    }
}

impl vstd::std_specs::convert::FromSpecImpl<ViewState> for BranchState {
    open spec fn obeys_from_spec() -> bool {
        true
    }

    open spec fn from_spec(v: ViewState) -> BranchState {
        BranchState::spec_from_view(v)
    }
}

impl From<BranchState> for SvgState {
    fn from(value: BranchState) -> (r: SvgState) {
        match value {
            BranchState::Basic => SvgState::Basic,
            BranchState::Active => SvgState::Pressed,
            BranchState::Disabled => SvgState::Disabled,
        }
    }
}

impl vstd::std_specs::convert::FromSpecImpl<BranchState> for SvgState {
    open spec fn obeys_from_spec() -> bool {
        true
    }

    open spec fn from_spec(v: BranchState) -> SvgState {
        v.spec_to_svg()
    }
}

/// The parts of a branch that carry a style of their own.
#[derive(Clone, Copy, Debug, PartialEq, Eq, Hash)]
pub enum BranchPart {
    Container,
    Icon,
    Text,
    Body,
}

/// A change of a branch: whether it is open now, and its value.
#[derive(Clone, Debug, PartialEq, Eq)]
pub struct BranchChanged {
    pub active: bool,
    pub value: String,
}

/// The events a branch sends.
#[derive(Clone, Debug, PartialEq, Eq)]
pub enum BranchEvent {
    Changed(BranchChanged),
}

/// The effects a branch asks for.
pub type BranchEffect = Effect<BranchState, BranchEvent>;

/// What the animator of a branch reports for an event: whether it asks for
/// a redraw, and whether its fold track is playing.
#[derive(Clone, Copy, Debug, PartialEq, Eq)]
pub struct AnimatorReport {
    pub must_redraw: bool,
    pub active_animating: bool,
}

/// A branch: what its event handling reads and changes.
#[derive(Clone, Debug, PartialEq, Eq)]
pub struct GBranch {
    pub visible: bool,
    pub disabled: bool,
    pub grab_key_focus: bool,
    pub event_open: bool,
    pub animation_open: bool,
    /// Whether the branch has been drawn into a scope, which its events need.
    pub scoped: bool,
    /// Whether the branch is open.
    pub active: bool,
    pub value: String,
    pub state: BranchState,
    /// Whether a fold animation may still ask for a redraw.
    pub animation_counter: bool,
}

/// Whether a branch's events reach its listeners.
pub open spec fn branch_open(b: GBranch) -> bool {
    b.event_open && b.scoped
}

/// What a branch that is not disabled does with a hit, after its animator
/// reported on the event: the branch after it and its effects. While its
/// animation is closed, a playing fold asks for one redraw; a release over
/// the header opens a shut branch and shuts an open one.
pub open spec fn branch_hit(b: GBranch, hit: Hit, an: AnimatorReport) -> (GBranch, Seq<BranchEffect>) {
    let anim = b.animation_open;
    let redraw = !anim && b.animation_counter && an.must_redraw && an.active_animating;
    let b0 = if redraw { GBranch { animation_counter: !b.animation_counter, ..b } } else { b };
    let fx0: Seq<BranchEffect> = if redraw { seq![Effect::Redraw] } else { Seq::empty() };
    match hit {
        Hit::FingerDown => (b0, fx0 + if b.grab_key_focus { seq![Effect::KeyFocus] } else { Seq::empty() }),
        Hit::FingerHoverIn => (b0, fx0 + seq![Effect::HandCursor]),
        Hit::FingerHoverOut => (
            GBranch { state: switched(anim, b0.state, BranchState::Basic), ..b0 },
            fx0 + switch_effects(anim, true),
        ),
        Hit::FingerUp(_) => {
            let active = !b.active;
            (
                GBranch {
                    active,
                    state: switched(anim, b0.state, if active { BranchState::Active } else { BranchState::Basic }),
                    animation_counter: true,
                    ..b0
                },
                fx0 + switch_effects(anim, true) + seq![Effect::Animate(if active { Track::ActiveOn } else { Track::ActiveOff })]
                    + emit(branch_open(b), BranchEvent::Changed(BranchChanged { active, value: b.value })),
            )
        },
        _ => (b0, fx0),
    }
}

impl GBranch {
    /// The change a branch reports, where its events reach its listeners.
    pub fn active_changed(&self) -> (e: Option<BranchEvent>)
        ensures
            e == (if branch_open(*self) {
                Some(BranchEvent::Changed(BranchChanged { active: self.active, value: self.value }))
            } else {
                None
            }),
    {
        if self.event_open && self.scoped {
            Some(BranchEvent::Changed(BranchChanged { active: self.active, value: self.value.clone() }))
        } else {
            None
        }
    }

    /// Handles a hit on a branch that is not disabled.
    pub fn handle_widget_event(&mut self, hit: Hit, an: AnimatorReport) -> (effects: Vec<BranchEffect>)
        ensures
            (*final(self), effects@) == branch_hit(*old(self), hit, an),
    {
        let mut effects: Vec<BranchEffect> = Vec::new();
        let anim = self.animation_open;
        if !anim && self.animation_counter && an.must_redraw && an.active_animating {
            push_effect(&mut effects, Effect::Redraw);
            self.animation_counter = !self.animation_counter;
        }
        match hit {
            Hit::FingerDown => {
                if self.grab_key_focus {
                    push_effect(&mut effects, Effect::KeyFocus);
                }
            },
            Hit::FingerHoverIn => {
                push_effect(&mut effects, Effect::HandCursor);
            },
            Hit::FingerHoverOut => {
                push_switch(&mut effects, anim, true);
                if anim {
                    self.state = BranchState::Basic;
                }
            },
            Hit::FingerUp(_) => {
                self.active = !self.active;
                push_switch(&mut effects, anim, true);
                if self.active {
                    if anim {
                        self.state = BranchState::Active;
                    }
                    push_effect(&mut effects, Effect::Animate(Track::ActiveOn));
                } else {
                    if anim {
                        self.state = BranchState::Basic;
                    }
                    push_effect(&mut effects, Effect::Animate(Track::ActiveOff));
                }
                let open = self.event_open && self.scoped;
                push_emit(&mut effects, open, BranchEvent::Changed(BranchChanged { active: self.active, value: self.value.clone() }));
                self.animation_counter = true;
            },
            _ => {},
        }
        proof {
            let (b, fx) = branch_hit(*old(self), hit, an);
            assert(effects@ =~= fx);
        }
        effects
    }

    /// Handles an event on a branch: an invisible branch ignores it; a
    /// visible one writes its animator; a disabled one shows its disabled
    /// state on a hover; an enabled one handles the hit on its header, and
    /// hands the event on to its body where it is open. Returns its effects
    /// and whether the body takes the event.
    pub fn handle_event(&mut self, hit: Hit, an: AnimatorReport) -> (r: (Vec<BranchEffect>, bool))
        ensures
            !old(self).visible ==> *final(self) == *old(self) && r.0@.len() == 0 && !r.1,
            old(self).visible && old(self).disabled ==>
                *final(self) == (GBranch { state: disabled_state(old(self).state, BranchState::Disabled, hit), ..*old(self) })
                && r.0@ == opening_effects::<BranchState, BranchEvent>() + disabled_effects::<BranchState, BranchEvent>(BranchState::Disabled, hit)
                && !r.1,
            old(self).visible && !old(self).disabled ==> ({
                let (b, fx) = branch_hit(*old(self), hit, an);
                *final(self) == b && r.0@ == opening_effects::<BranchState, BranchEvent>() + fx && r.1 == b.active
            }),
    {
        if !self.visible {
            return (Vec::new(), false);
        }
        let mut effects = opening();
        if self.disabled {
            self.state = handle_disabled(self.state, BranchState::Disabled, hit, &mut effects);
            return (effects, false);
        }
        let mut more = self.handle_widget_event(hit, an);
        effects.append(&mut more);
        (effects, self.active)
    }

    /// Puts the branch in the state it is drawn in.
    pub fn render(&mut self)
        ensures
            *final(self) == (GBranch {
                state: if old(self).disabled {
                    BranchState::Disabled
                } else if old(self).active {
                    BranchState::Active
                } else {
                    BranchState::Basic
                },
                ..*old(self)
            }),
    {
        self.state = if self.disabled {
            BranchState::Disabled
        } else if self.active {
            BranchState::Active
        } else {
            BranchState::Basic
        };
    }

    /// How the body of a branch is drawn: the fold track to play, and whether
    /// the body is drawn, which it is exactly when the branch is open.
    pub fn body_plan(&self) -> (r: (Track, bool))
        ensures
            r == (if self.active { (Track::ActiveOn, true) } else { (Track::ActiveOff, false) }),
    {
        if self.active { (Track::ActiveOn, true) } else { (Track::ActiveOff, false) }
    }
}

/// A release over the header of an enabled branch flips it open or shut,
/// and the change it reports says which.
pub proof fn lemma_branch_click_flips(b: GBranch, an: AnimatorReport, e: crate::widget::FingerUp)
    requires
        branch_open(b),
    ensures
        branch_hit(b, Hit::FingerUp(e), an).0.active == !b.active,
        branch_hit(b, Hit::FingerUp(e), an).1.last() == Effect::<BranchState, BranchEvent>::Emit(
            BranchEvent::Changed(BranchChanged { active: !b.active, value: b.value }),
        ),
{
}

/// Two releases over the header of an enabled branch leave it as open as it was.
pub proof fn lemma_branch_two_clicks(b: GBranch, an1: AnimatorReport, an2: AnimatorReport, e: crate::widget::FingerUp)
    ensures
        branch_hit(branch_hit(b, Hit::FingerUp(e), an1).0, Hit::FingerUp(e), an2).0.active == b.active,
{
}

/// A branch state is recovered from the view state it is shown in; a hovered
/// view is shown as a basic branch.
pub proof fn lemma_branch_view_roundtrip(s: BranchState)
    ensures
        BranchState::spec_from_view(s.spec_to_view()) == s,
        BranchState::spec_from_view(ViewState::Hover).spec_to_view() == ViewState::Basic,
{
}

/// The state whose styles a block of the branch's document sets, by the
/// block's name; a block under any other name sets none.
pub open spec fn branch_named_state(name: Seq<char>) -> Option<BranchState> {
    if name == "basic"@ {
        Some(BranchState::Basic)
    } else if name == "active"@ {
        Some(BranchState::Active)
    } else if name == "disabled"@ {
        Some(BranchState::Disabled)
    } else {
        None
    }
}

impl GBranch {
    /// After a live update of its document, the branch files the styles of
    /// each named block under the state the block names: the state for a
    /// block named `prefix`, if it names one.
    pub fn after_apply(prefix: &String) -> (r: Option<BranchState>)
        ensures
            r == branch_named_state(prefix@),
    {
        if is_named(prefix, "basic") {
            Some(BranchState::Basic)
        } else if is_named(prefix, "active") {
            Some(BranchState::Active)
        } else if is_named(prefix, "disabled") {
            Some(BranchState::Disabled)
        } else {
            None
        }
    }
}

/// The state a branch's text is shown in: disabled with the branch, basic
/// otherwise.
pub open spec fn branch_label(s: BranchState) -> LabelState {
    match s {
        BranchState::Disabled => LabelState::Disabled,
        _ => LabelState::Basic,
    }
}

impl From<BranchState> for LabelState {
    fn from(value: BranchState) -> (r: LabelState) {
        match value {
            BranchState::Basic | BranchState::Active => LabelState::Basic,
            BranchState::Disabled => LabelState::Disabled,
        }
    }
}

impl vstd::std_specs::convert::FromSpecImpl<BranchState> for LabelState {
    open spec fn obeys_from_spec() -> bool {
        true
    }

    open spec fn from_spec(v: BranchState) -> LabelState {
        branch_label(v)
    }
}

/// With its animation open, a release over a branch shows it active exactly
/// where it turned open, basic where it turned shut, and the pointer leaving
/// it shows it basic.
pub proof fn lemma_branch_hit_states(b: GBranch, hit: Hit, an: AnimatorReport)
    requires
        b.animation_open,
    ensures
        hit is FingerUp ==> branch_hit(b, hit, an).0.active == !b.active
            && branch_hit(b, hit, an).0.state == (if !b.active { BranchState::Active } else { BranchState::Basic }),
        hit is FingerHoverOut ==> branch_hit(b, hit, an).0.state == BranchState::Basic,
{
}

} // verus!
