//! What a component writes into its animator before it handles an event: the
//! styles of all its states the first time (or while it has no scope, or
//! before any component of its kind was animated), the style of its current
//! state otherwise, and nothing where it has no animator. The styles of a
//! state go to the animator track the state names (`track`).

use vstd::prelude::*;
use crate::branch::{BranchState, GBranch};
use crate::group::{GTabbar, TabbarState};
use crate::progress::{GProgress, ProgressState};
use crate::radio::{GRadio, RadioState};
use crate::rate::{GRate, RateState};
use crate::select::{GSelect, GSelectItem, SelectState};
use crate::slider::{GSlider, SliderState};
use crate::state::{SvgState, ViewState};
use crate::svg::GSvg;
use crate::switch::{GSwitch, SwitchState};
use crate::tabbar::{GTabbarItem, TabbarItemState};
use crate::tag::{GTag, TagState};
use crate::view::GView;

verus! {

/// What the host knows of a component's animator when it is to be written.
#[derive(Clone, Copy, Debug, PartialEq, Eq)]
pub struct AnimatorSetup {
    /// Whether the component has an animator in a document.
    pub has_live_ptr: bool,
    /// Whether the document of the animator is loaded.
    pub has_live_file: bool,
    /// Whether the component was just created.
    pub created: bool,
    /// Whether a component of this kind has been animated before.
    pub init_global: bool,
}

/// Which styles a component writes into its animator.
#[derive(Clone, Copy, Debug, PartialEq, Eq)]
pub enum AnimationPlan {
    /// None: there is no animator to write.
    Skip,
    /// The styles of all states; the component's lifecycle moves on.
    All,
    /// The style of the current state.
    Current,
}

/// Which styles a component writes into its animator.
pub open spec fn animation_plan(setup: AnimatorSetup, scoped: bool) -> AnimationPlan {
    if !setup.has_live_ptr || !setup.has_live_file {
        AnimationPlan::Skip
    } else if setup.created || !setup.init_global || !scoped {
        AnimationPlan::All
    } else {
        AnimationPlan::Current
    }
}

/// The states whose styles are written under a plan.
pub open spec fn planned_writes<S>(plan: AnimationPlan, all: Seq<S>, current: S) -> Seq<S> {
    match plan {
        AnimationPlan::Skip => Seq::empty(),
        AnimationPlan::All => all,
        AnimationPlan::Current => seq![current],
    }
}

/// What a component writes into its animator: whether its lifecycle moves
/// on, and the states whose styles it writes, in order.
pub struct AnimationWrites<S> {
    pub advance_lifecycle: bool,
    pub writes: Vec<S>,
}

/// Decides which styles a component writes into its animator.
pub fn plan_animation(setup: AnimatorSetup, scoped: bool) -> (p: AnimationPlan)
    ensures
        p == animation_plan(setup, scoped),
{
    if !setup.has_live_ptr || !setup.has_live_file {
        AnimationPlan::Skip
    } else if setup.created || !setup.init_global || !scoped {
        AnimationPlan::All
    } else {
        AnimationPlan::Current
    }
}

/// The writes of a component whose states are `all` and whose current state
/// is `current`.
pub fn animation_writes<S: Copy>(setup: AnimatorSetup, scoped: bool, all: Vec<S>, current: S) -> (r: AnimationWrites<S>)
    ensures
        r.advance_lifecycle == (animation_plan(setup, scoped) is All),
        r.writes@ == planned_writes(animation_plan(setup, scoped), all@, current),
{
    let plan = plan_animation(setup, scoped);
    match plan {
        AnimationPlan::Skip => AnimationWrites { advance_lifecycle: false, writes: Vec::new() },
        AnimationPlan::All => AnimationWrites { advance_lifecycle: true, writes: all },
        AnimationPlan::Current => {
            let mut writes: Vec<S> = Vec::new();
            writes.push(current);
            assert(writes@ =~= seq![current]);
            AnimationWrites { advance_lifecycle: false, writes }
        },
    }
}

/// Where a component has an animator, it writes at least the style of the
/// state it is in.
pub proof fn lemma_writes_cover_current<S>(setup: AnimatorSetup, scoped: bool, all: Seq<S>, current: S)
    requires
        setup.has_live_ptr,
        setup.has_live_file,
        all.contains(current),
    ensures
        planned_writes(animation_plan(setup, scoped), all, current).contains(current),
{
    if animation_plan(setup, scoped) is Current {
        assert(seq![current][0] == current);
    }
}

/// Once a component of its kind was animated and it has a scope, a component
/// that is not new writes only the style of its current state.
pub proof fn lemma_settled_writes_current<S>(setup: AnimatorSetup, all: Seq<S>, current: S)
    requires
        setup.has_live_ptr,
        setup.has_live_file,
        !setup.created,
        setup.init_global,
    ensures
        planned_writes(animation_plan(setup, true), all, current) == seq![current],
{
}

impl GRadio {
    /// What the radio writes into its animator.
    pub fn set_animation(&self, setup: AnimatorSetup) -> (r: AnimationWrites<RadioState>)
        ensures
            r.advance_lifecycle == (animation_plan(setup, self.scoped) is All),
            r.writes@ == planned_writes(
                animation_plan(setup, self.scoped),
                seq![RadioState::Basic, RadioState::Hover, RadioState::Active, RadioState::Disabled],
                self.state,
            ),
    {
        let all = vec![RadioState::Basic, RadioState::Hover, RadioState::Active, RadioState::Disabled];
        assert(all@ =~= seq![RadioState::Basic, RadioState::Hover, RadioState::Active, RadioState::Disabled]);
        animation_writes(setup, self.scoped, all, self.state)
    }
}

impl GSwitch {
    /// What the switch writes into its animator.
    pub fn set_animation(&self, setup: AnimatorSetup) -> (r: AnimationWrites<SwitchState>)
        ensures
            r.advance_lifecycle == (animation_plan(setup, self.scoped) is All),
            r.writes@ == planned_writes(
                animation_plan(setup, self.scoped),
                seq![SwitchState::Basic, SwitchState::Active, SwitchState::HoverBasic, SwitchState::HoverActive, SwitchState::Disabled],
                self.state,
            ),
    {
        let all = vec![SwitchState::Basic, SwitchState::Active, SwitchState::HoverBasic, SwitchState::HoverActive, SwitchState::Disabled];
        assert(all@ =~= seq![SwitchState::Basic, SwitchState::Active, SwitchState::HoverBasic, SwitchState::HoverActive, SwitchState::Disabled]);
        animation_writes(setup, self.scoped, all, self.state)
    }
}

impl<B> GSvg<B> {
    /// What the icon writes into its animator.
    pub fn set_animation(&self, setup: AnimatorSetup) -> (r: AnimationWrites<SvgState>)
        ensures
            r.advance_lifecycle == (animation_plan(setup, self.scoped) is All),
            r.writes@ == planned_writes(
                animation_plan(setup, self.scoped),
                seq![SvgState::Basic, SvgState::Hover, SvgState::Pressed, SvgState::Disabled],
                self.state,
            ),
    {
        let all = vec![SvgState::Basic, SvgState::Hover, SvgState::Pressed, SvgState::Disabled];
        assert(all@ =~= seq![SvgState::Basic, SvgState::Hover, SvgState::Pressed, SvgState::Disabled]);
        animation_writes(setup, self.scoped, all, self.state)
    }
}

impl GSlider {
    /// What the slider writes into its animator.
    pub fn set_animation(&self, setup: AnimatorSetup) -> (r: AnimationWrites<SliderState>)
        ensures
            r.advance_lifecycle == (animation_plan(setup, self.scoped) is All),
            r.writes@ == planned_writes(
                animation_plan(setup, self.scoped),
                seq![SliderState::Basic, SliderState::Dragging, SliderState::Hover, SliderState::Disabled],
                self.state,
            ),
    {
        let all = vec![SliderState::Basic, SliderState::Dragging, SliderState::Hover, SliderState::Disabled];
        assert(all@ =~= seq![SliderState::Basic, SliderState::Dragging, SliderState::Hover, SliderState::Disabled]);
        animation_writes(setup, self.scoped, all, self.state)
    }
}

impl GSelect {
    /// What the select writes into its animator.
    pub fn set_animation(&self, setup: AnimatorSetup) -> (r: AnimationWrites<SelectState>)
        ensures
            r.advance_lifecycle == (animation_plan(setup, self.scoped) is All),
            r.writes@ == planned_writes(
                animation_plan(setup, self.scoped),
                seq![SelectState::Basic, SelectState::Hover, SelectState::Active, SelectState::Disabled],
                self.state,
            ),
    {
        let all = vec![SelectState::Basic, SelectState::Hover, SelectState::Active, SelectState::Disabled];
        assert(all@ =~= seq![SelectState::Basic, SelectState::Hover, SelectState::Active, SelectState::Disabled]);
        animation_writes(setup, self.scoped, all, self.state)
    }
}

impl GSelectItem {
    /// What the item writes into its animator.
    pub fn set_animation(&self, setup: AnimatorSetup) -> (r: AnimationWrites<SelectState>)
        ensures
            r.advance_lifecycle == (animation_plan(setup, self.scoped) is All),
            r.writes@ == planned_writes(
                animation_plan(setup, self.scoped),
                seq![SelectState::Basic, SelectState::Hover, SelectState::Active, SelectState::Disabled],
                self.state,
            ),
    {
        let all = vec![SelectState::Basic, SelectState::Hover, SelectState::Active, SelectState::Disabled];
        assert(all@ =~= seq![SelectState::Basic, SelectState::Hover, SelectState::Active, SelectState::Disabled]);
        animation_writes(setup, self.scoped, all, self.state)
    }
}

impl GTabbarItem {
    /// What the tab writes into its animator.
    pub fn set_animation(&self, setup: AnimatorSetup) -> (r: AnimationWrites<TabbarItemState>)
        ensures
            r.advance_lifecycle == (animation_plan(setup, self.scoped) is All),
            r.writes@ == planned_writes(
                animation_plan(setup, self.scoped),
                seq![TabbarItemState::Basic, TabbarItemState::Hover, TabbarItemState::Active, TabbarItemState::Disabled],
                self.state,
            ),
    {
        let all = vec![TabbarItemState::Basic, TabbarItemState::Hover, TabbarItemState::Active, TabbarItemState::Disabled];
        assert(all@ =~= seq![TabbarItemState::Basic, TabbarItemState::Hover, TabbarItemState::Active, TabbarItemState::Disabled]);
        animation_writes(setup, self.scoped, all, self.state)
    }
}

impl GTag {
    /// What the tag writes into its animator.
    pub fn set_animation(&self, setup: AnimatorSetup) -> (r: AnimationWrites<TagState>)
        ensures
            r.advance_lifecycle == (animation_plan(setup, self.scoped) is All),
            r.writes@ == planned_writes(
                animation_plan(setup, self.scoped),
                seq![TagState::Basic, TagState::Hover, TagState::Pressed, TagState::Disabled],
                self.state,
            ),
    {
        let all = vec![TagState::Basic, TagState::Hover, TagState::Pressed, TagState::Disabled];
        assert(all@ =~= seq![TagState::Basic, TagState::Hover, TagState::Pressed, TagState::Disabled]);
        animation_writes(setup, self.scoped, all, self.state)
    }
}

impl GBranch {
    /// What the branch writes into its animator.
    pub fn set_animation(&self, setup: AnimatorSetup) -> (r: AnimationWrites<BranchState>)
        ensures
            r.advance_lifecycle == (animation_plan(setup, self.scoped) is All),
            r.writes@ == planned_writes(
                animation_plan(setup, self.scoped),
                seq![BranchState::Basic, BranchState::Active, BranchState::Disabled],
                self.state,
            ),
    {
        let all = vec![BranchState::Basic, BranchState::Active, BranchState::Disabled];
        assert(all@ =~= seq![BranchState::Basic, BranchState::Active, BranchState::Disabled]);
        animation_writes(setup, self.scoped, all, self.state)
    }
}

impl GView {
    /// What the view writes into its animator.
    pub fn set_animation(&self, setup: AnimatorSetup) -> (r: AnimationWrites<ViewState>)
        ensures
            r.advance_lifecycle == (animation_plan(setup, self.scoped) is All),
            r.writes@ == planned_writes(
                animation_plan(setup, self.scoped),
                seq![ViewState::Basic, ViewState::Hover, ViewState::Pressed, ViewState::Disabled],
                self.state,
            ),
    {
        let all = vec![ViewState::Basic, ViewState::Hover, ViewState::Pressed, ViewState::Disabled];
        assert(all@ =~= seq![ViewState::Basic, ViewState::Hover, ViewState::Pressed, ViewState::Disabled]);
        animation_writes(setup, self.scoped, all, self.state)
    }
}

impl GRate {
    /// What the rating writes into its animator.
    pub fn set_animation(&self, setup: AnimatorSetup) -> (r: AnimationWrites<RateState>)
        ensures
            r.advance_lifecycle == (animation_plan(setup, self.scoped) is All),
            r.writes@ == planned_writes(
                animation_plan(setup, self.scoped),
                seq![RateState::Basic, RateState::Hover, RateState::Pressed, RateState::Disabled],
                self.state,
            ),
    {
        let all = vec![RateState::Basic, RateState::Hover, RateState::Pressed, RateState::Disabled];
        assert(all@ =~= seq![RateState::Basic, RateState::Hover, RateState::Pressed, RateState::Disabled]);
        animation_writes(setup, self.scoped, all, self.state)
    }
}

impl GProgress {
    /// What the progress bar writes into its animator.
    pub fn set_animation(&self, setup: AnimatorSetup) -> (r: AnimationWrites<ProgressState>)
        ensures
            r.advance_lifecycle == (animation_plan(setup, self.scoped) is All),
            r.writes@ == planned_writes(
                animation_plan(setup, self.scoped),
                seq![ProgressState::Basic, ProgressState::Loading, ProgressState::Disabled],
                self.state,
            ),
    {
        let all = vec![ProgressState::Basic, ProgressState::Loading, ProgressState::Disabled];
        assert(all@ =~= seq![ProgressState::Basic, ProgressState::Loading, ProgressState::Disabled]);
        animation_writes(setup, self.scoped, all, self.state)
    }
}

impl GTabbar {
    /// What the tab bar writes into its animator.
    pub fn set_animation(&self, setup: AnimatorSetup) -> (r: AnimationWrites<TabbarState>)
        ensures
            r.advance_lifecycle == (animation_plan(setup, self.scoped) is All),
            r.writes@ == planned_writes(
                animation_plan(setup, self.scoped),
                seq![TabbarState::Basic, TabbarState::Disabled],
                self.state,
            ),
    {
        let all = vec![TabbarState::Basic, TabbarState::Disabled];
        assert(all@ =~= seq![TabbarState::Basic, TabbarState::Disabled]);
        animation_writes(setup, self.scoped, all, self.state)
    }
}

/// For each kind of component, whether one of its kind has had its animator
/// written; none has at the start.
#[derive(Clone, Copy, Debug, PartialEq, Eq)]
pub struct ComponentAnInit {
    pub button: bool,
    pub view: bool,
    pub card: bool,
    pub radio: bool,
    pub checkbox: bool,
    pub svg: bool,
    pub image: bool,
    pub tabbar: bool,
    pub tabbar_item: bool,
    pub tag: bool,
    pub link: bool,
    pub menu_item: bool,
    pub collapse: bool,
    pub sub_menu: bool,
    pub menu: bool,
    pub progress: bool,
    pub loading: bool,
    pub slider: bool,
    pub rate: bool,
    pub select_item: bool,
    pub select: bool,
}

impl Default for ComponentAnInit {
    fn default() -> (r: ComponentAnInit)
        ensures
            r == (ComponentAnInit {
                button: false, view: false, card: false, radio: false, checkbox: false, svg: false,
                image: false, tabbar: false, tabbar_item: false, tag: false, link: false,
                menu_item: false, collapse: false, sub_menu: false, menu: false, progress: false,
                loading: false, slider: false, rate: false, select_item: false, select: false,
            }),
    {
        ComponentAnInit {
            button: false, view: false, card: false, radio: false, checkbox: false, svg: false,
            image: false, tabbar: false, tabbar_item: false, tag: false, link: false,
            menu_item: false, collapse: false, sub_menu: false, menu: false, progress: false,
            loading: false, slider: false, rate: false, select_item: false, select: false,
        }
    }
}

} // verus!
