use gen_ui::animation::{plan_animation, AnimationPlan, AnimatorSetup, ComponentAnInit};
use gen_ui::error::Error;
use gen_ui::leaf::{LeafState, TreeState};
use gen_ui::progress::{GProgress, ProgressState};
use gen_ui::radio::{GRadio, RadioState};
use gen_ui::rate::{GRate, RateState};
use gen_ui::state::{LabelState, SvgState, ViewState};
use gen_ui::tag::TagState;
use gen_ui::select::SelectState;
use gen_ui::branch::BranchState;
use gen_ui::verification::{GVerification, VerificationState};
use gen_ui::widget::{Effect, Hit, Track};

fn setup(created: bool, init_global: bool) -> AnimatorSetup {
    AnimatorSetup { has_live_ptr: true, has_live_file: true, created, init_global }
}

#[test]
fn animator_plans() {
    assert_eq!(plan_animation(AnimatorSetup { has_live_ptr: false, ..setup(true, false) }, true), AnimationPlan::Skip);
    assert_eq!(plan_animation(AnimatorSetup { has_live_file: false, ..setup(true, false) }, true), AnimationPlan::Skip);
    assert_eq!(plan_animation(setup(true, true), true), AnimationPlan::All);
    assert_eq!(plan_animation(setup(false, false), true), AnimationPlan::All);
    assert_eq!(plan_animation(setup(false, true), false), AnimationPlan::All);
    assert_eq!(plan_animation(setup(false, true), true), AnimationPlan::Current);
}

#[test]
fn radio_animator_writes() {
    let r = GRadio {
        visible: true,
        radio_visible: true,
        extra_visible: false,
        reverse: false,
        disabled: false,
        grab_key_focus: false,
        event_open: true,
        animation_open: true,
        scoped: true,
        active: false,
        value: String::new(),
        state: RadioState::Hover,
    };
    let all = r.set_animation(setup(true, true));
    assert!(all.advance_lifecycle);
    assert_eq!(all.writes, vec![RadioState::Basic, RadioState::Hover, RadioState::Active, RadioState::Disabled]);
    let current = r.set_animation(setup(false, true));
    assert!(!current.advance_lifecycle);
    assert_eq!(current.writes, vec![RadioState::Hover]);
    assert_eq!(current.writes[0].track(), Track::HoverOn);
    assert!(r.set_animation(AnimatorSetup { has_live_ptr: false, ..setup(false, true) }).writes.is_empty());
}

#[test]
fn progress_and_rate_animators() {
    let p = GProgress { visible: true, disabled: false, scoped: false, state: ProgressState::Loading };
    assert_eq!(p.set_animation(setup(false, true)).writes.len(), 3);
    assert_eq!(ProgressState::Loading.track(), Track::LoadingOn);
    let mut q = GProgress { disabled: true, ..p };
    q.render();
    assert_eq!(q.state, ProgressState::Disabled);
    let mut r = GRate { visible: true, disabled: true, scoped: true, state: RateState::Basic };
    assert_eq!(r.set_animation(setup(false, true)).writes, vec![RateState::Basic]);
    let fx = r.handle_event(Hit::FingerHoverIn);
    assert_eq!(r.state, RateState::Disabled);
    assert_eq!(fx, vec![Effect::SyncAnimator, Effect::MarkAnimated, Effect::Redraw, Effect::Cursor(RateState::Disabled)]);
}

#[test]
fn no_kind_animated_at_start() {
    let init = ComponentAnInit::default();
    assert!(!init.radio && !init.view && !init.select && !init.checkbox);
}

#[test]
fn error_messages() {
    assert_eq!(
        Error::IconTypeTransfom.message(),
        "Cannot transform icon type to target type. You may use the non-exist icon type."
    );
    assert_eq!(
        Error::ConflictHeight.message(),
        "Widget height is fixed and bigger than max height or smaller than min height."
    );
    assert_eq!(
        Error::ConflictWidth.message(),
        "Widget width is fixed and bigger than max width or smaller than min width."
    );
    assert_eq!(Error::ThemeStyleFileLoad("gone".to_string()).message(), "Cannot load theme style file: gone");
    assert_eq!(Error::ThemeStyleParse("bad".to_string()).message(), "Cannot parse theme style file: bad");
    assert_eq!(
        Error::InvalidPart { from: "icon".to_string(), to: "RadioPart".to_string() }.message(),
        "Invalid part conversion from icon to RadioPart"
    );
}

#[test]
fn verification_items_take_values() {
    let mut v = GVerification {
        visible: true,
        disabled: false,
        length: 4,
        value: vec!["1".to_string(), "2".to_string()],
        state: VerificationState::Basic,
    };
    let kept = v.value.clone();
    assert_eq!(
        v.apply_items(),
        vec![Some("1".to_string()), Some("2".to_string()), Some(String::new()), Some(String::new())]
    );
    // the values are kept one per input
    assert_eq!(v.value, vec!["1".to_string(), "2".to_string(), String::new(), String::new()]);
    let mut empty = GVerification { value: vec![], ..v };
    assert_eq!(empty.apply_items(), vec![None, None, None, None]);
    assert_eq!(empty.value.len(), 4);
    let mut long = GVerification { length: 1, value: kept, visible: true, disabled: false, state: VerificationState::Basic };
    assert_eq!(long.apply_items(), vec![Some("1".to_string())]);
    assert_eq!(long.value, vec!["1".to_string()]);
    let mut none = GVerification { length: -2, value: vec![], visible: true, disabled: true, state: VerificationState::Basic };
    assert!(none.apply_items().is_empty());
    assert!(none.value.is_empty());
    assert!(!none.handle_event());
    let mut d = none;
    d.render();
    assert_eq!(d.state, VerificationState::Disabled);
    assert_eq!(VerificationState::from_view(ViewState::Disabled), VerificationState::Disabled);
    assert_eq!(ViewState::from(VerificationState::Basic), ViewState::Basic);
}

#[test]
fn leaf_and_tree_states() {
    assert_eq!(LeafState::from(ViewState::Pressed), LeafState::Active);
    assert_eq!(ViewState::from(LeafState::Hover), ViewState::Hover);
    assert_eq!(SvgState::from(LeafState::Active), SvgState::Pressed);
    assert_eq!(TreeState::from_view(ViewState::Basic), TreeState::Basic);
    assert_eq!(ViewState::from(TreeState::Basic), ViewState::Basic);
}

#[test]
fn progress_and_rate_get_a_scope_when_drawn_visible() {
    let mut p = GProgress { visible: true, disabled: false, scoped: false, state: ProgressState::Basic };
    assert!(p.draw_walk());
    assert!(p.scoped);
    let mut r = GRate { visible: false, disabled: false, scoped: false, state: RateState::Basic };
    assert!(!r.draw_walk());
    assert!(!r.scoped);
}

#[test]
fn more_components_file_document_blocks_by_state_name() {
    assert_eq!(GRate::after_apply(&"pressed".to_string()), Some(RateState::Pressed));
    assert_eq!(GProgress::after_apply(&"loading".to_string()), Some(ProgressState::Loading));
    assert_eq!(GProgress::after_apply(&"hover".to_string()), None);
    assert_eq!(GVerification::after_apply(&"disabled".to_string()), Some(VerificationState::Disabled));
    assert_eq!(GVerification::after_apply(&"hover".to_string()), None);
}

#[test]
fn text_labels_show_only_disabled() {
    assert_eq!(LabelState::from(RadioState::Active), LabelState::Basic);
    assert_eq!(LabelState::from(RadioState::Disabled), LabelState::Disabled);
    assert_eq!(LabelState::from(TagState::Pressed), LabelState::Basic);
    assert_eq!(LabelState::from(TagState::Disabled), LabelState::Disabled);
    assert_eq!(LabelState::from(SelectState::Hover), LabelState::Basic);
    assert_eq!(LabelState::from(SelectState::Disabled), LabelState::Disabled);
    assert_eq!(LabelState::from(BranchState::Active), LabelState::Basic);
    assert_eq!(LabelState::from(BranchState::Disabled), LabelState::Disabled);
    assert_eq!(LabelState::from(LeafState::Hover), LabelState::Basic);
    assert_eq!(LabelState::from(LeafState::Disabled), LabelState::Disabled);
}

#[test]
fn icon_states_show_as_view_states_of_the_same_name() {
    assert_eq!(ViewState::from(SvgState::Pressed), ViewState::Pressed);
    assert_eq!(ViewState::from(SvgState::Hover), ViewState::Hover);
}
