use gen_ui::branch::{AnimatorReport, BranchChanged, BranchEvent, BranchState, GBranch};
use gen_ui::radio::{GRadio, RadioClicked, RadioEvent, RadioPart, RadioProp, RadioState};
use gen_ui::select::{GSelect, GSelectItem, OptionsReport, SelectChangedEvent, SelectEvent, SelectItemClicked, SelectItemEvent, SelectState};
use gen_ui::slider::{GSlider, SliderEvent, SliderState};
use gen_ui::state::{ComponentState, Style, SvgState, ViewState};
use gen_ui::svg::{GSvg, SvgEvent, SvgStyle};
use gen_ui::switch::{GSwitch, SwitchChanged, SwitchClicked, SwitchEvent, SwitchState};
use gen_ui::tabbar::{GTabbarItem, SlotLookup, TabbarItemClicked, TabbarItemEvent, TabbarItemState};
use gen_ui::tag::{GTag, TagEvent, TagLookup, TagState};
use gen_ui::widget::{Effect, FingerUp, Hit, Track};

fn up(is_over: bool, has_hovers: bool) -> Hit {
    Hit::FingerUp(FingerUp { is_over, has_hovers, is_sweep: false })
}

fn radio(active: bool) -> GRadio {
    GRadio {
        visible: true,
        radio_visible: true,
        extra_visible: true,
        reverse: false,
        disabled: false,
        grab_key_focus: true,
        event_open: true,
        animation_open: true,
        scoped: true,
        active,
        value: "v".to_string(),
        state: RadioState::Basic,
    }
}

#[test]
fn radio_click_turns_it_active() {
    let mut r = radio(false);
    let fx = r.handle_event(up(true, true));
    assert!(r.active);
    assert_eq!(r.state, RadioState::Active);
    assert_eq!(
        fx,
        vec![
            Effect::SyncAnimator,
            Effect::MarkAnimated,
            Effect::SyncAnimator,
            Effect::Animate(Track::HoverActive),
            Effect::Emit(RadioEvent::Clicked(RadioClicked { active: true, value: "v".to_string() })),
        ]
    );
}

#[test]
fn active_radio_ignores_hits() {
    let mut r = radio(true);
    r.state = RadioState::Active;
    for hit in [Hit::FingerDown, Hit::FingerHoverIn, Hit::FingerHoverOut, up(true, true), up(false, true)] {
        let fx = r.handle_widget_event(hit);
        assert!(fx.is_empty());
        assert!(r.active);
        assert_eq!(r.state, RadioState::Active);
    }
}

#[test]
fn radio_touch_release_clicks_without_activating() {
    let mut r = radio(false);
    let fx = r.handle_widget_event(up(true, false));
    assert!(!r.active);
    assert_eq!(fx.last(), Some(&Effect::Emit(RadioEvent::Clicked(RadioClicked { active: false, value: "v".to_string() }))));
}

#[test]
fn radio_hover_shows_hover_and_sets_cursor_of_previous_state() {
    let mut r = radio(false);
    let fx = r.handle_widget_event(Hit::FingerHoverIn);
    assert_eq!(r.state, RadioState::Hover);
    assert_eq!(fx, vec![Effect::Cursor(RadioState::Basic), Effect::SyncAnimator, Effect::Emit(RadioEvent::HoverIn)]);
    let fx = r.handle_widget_event(Hit::FingerHoverOut);
    assert_eq!(r.state, RadioState::Basic);
    assert_eq!(fx, vec![Effect::SyncAnimator, Effect::Emit(RadioEvent::HoverOut)]);
    let fx = r.handle_widget_event(Hit::FingerDown);
    assert_eq!(fx, vec![Effect::KeyFocus]);
}

#[test]
fn radio_closed_animation_keeps_state() {
    let mut r = radio(false);
    r.animation_open = false;
    let fx = r.handle_widget_event(Hit::FingerHoverIn);
    assert_eq!(r.state, RadioState::Basic);
    assert_eq!(fx, vec![Effect::Cursor(RadioState::Basic), Effect::Emit(RadioEvent::HoverIn)]);
}

#[test]
fn disabled_radio_only_shows_disabled_on_hover() {
    let mut r = radio(false);
    r.disabled = true;
    let fx = r.handle_event(Hit::FingerDown);
    assert_eq!(fx, vec![Effect::SyncAnimator, Effect::MarkAnimated]);
    assert_eq!(r.state, RadioState::Basic);
    let fx = r.handle_event(Hit::FingerHoverIn);
    assert_eq!(r.state, RadioState::Disabled);
    assert_eq!(fx, vec![Effect::SyncAnimator, Effect::MarkAnimated, Effect::Redraw, Effect::Cursor(RadioState::Disabled)]);
}

#[test]
fn invisible_radio_ignores_events() {
    let mut r = radio(false);
    r.visible = false;
    assert!(r.handle_event(up(true, true)).is_empty());
    assert!(!r.active);
}

#[test]
fn radio_toggle_and_render_agree() {
    let mut r = radio(false);
    let fx = r.toggle(true, true);
    assert_eq!(fx, vec![Effect::Emit(RadioEvent::Clicked(RadioClicked { active: true, value: "v".to_string() }))]);
    let shown = r.state;
    r.render();
    assert_eq!(r.state, shown);
    let mut closed = radio(false);
    closed.event_open = false;
    assert_eq!(closed.toggle(false, false), vec![Effect::Animate(Track::HoverOff)]);
    assert_eq!(closed.active_clicked(), None);
}

#[test]
fn radio_draws_its_parts_in_order() {
    let mut r = radio(false);
    assert_eq!(r.draw_walk(), vec![RadioPart::Container, RadioPart::Radio, RadioPart::Extra]);
    r.reverse = true;
    assert_eq!(r.draw_walk(), vec![RadioPart::Container, RadioPart::Extra, RadioPart::Radio]);
    r.visible = false;
    assert!(r.draw_walk().is_empty());
}

#[test]
fn radio_state_conversions() {
    assert_eq!(ViewState::from(RadioState::Active), ViewState::Pressed);
    assert_eq!(RadioState::from(ViewState::Pressed), RadioState::Active);
    assert_eq!(RadioState::Disabled.track(), Track::HoverDisabled);
    assert!(RadioState::Disabled.is_disabled());
    assert!(!RadioState::Hover.is_disabled());
}

#[test]
fn style_per_state() {
    let mut p = RadioProp { basic: 1u8, hover: 2, active: 3, disabled: 4 };
    assert_eq!(*p.get(RadioState::Active), 3);
    *p.get_mut(RadioState::Hover) = 9;
    assert_eq!(p, RadioProp { basic: 1, hover: 9, active: 3, disabled: 4 });
}

fn switch(value: bool) -> GSwitch {
    GSwitch {
        visible: true,
        disabled: false,
        grab_key_focus: false,
        event_open: true,
        animation_open: true,
        scoped: true,
        value,
        state: if value { SwitchState::Active } else { SwitchState::Basic },
    }
}

#[test]
fn switch_click_flips_value_and_reports_it() {
    let mut s = switch(false);
    let fx = s.handle_widget_event(up(true, true));
    assert!(s.value);
    assert_eq!(s.state, SwitchState::Active);
    assert_eq!(
        fx,
        vec![
            Effect::SyncAnimator,
            Effect::Animate(Track::ActiveOn),
            Effect::Emit(SwitchEvent::Clicked(SwitchClicked { value: true })),
            Effect::Emit(SwitchEvent::Changed(SwitchChanged { value: true })),
        ]
    );
    let _ = s.handle_widget_event(up(true, true));
    assert!(!s.value);
    assert_eq!(s.state, SwitchState::Basic);
}

#[test]
fn switch_hover_shows_value() {
    let mut s = switch(true);
    let fx = s.handle_widget_event(Hit::FingerHoverIn);
    assert_eq!(s.state, SwitchState::HoverActive);
    assert_eq!(fx[2], Effect::Animate(Track::ActiveOnHover));
    let _ = s.handle_widget_event(Hit::FingerHoverOut);
    assert_eq!(s.state, SwitchState::Active);
    let mut t = switch(false);
    let _ = t.handle_widget_event(Hit::FingerHoverIn);
    assert_eq!(t.state, SwitchState::HoverBasic);
}

#[test]
fn switch_touch_release_keeps_value() {
    let mut s = switch(true);
    let fx = s.handle_widget_event(up(true, false));
    assert!(s.value);
    assert_eq!(s.state, SwitchState::Basic);
    assert_eq!(fx[1], Effect::Animate(Track::ActiveOff));
    // the value did not change, so only the click is reported
    assert_eq!(fx.last(), Some(&Effect::Emit(SwitchEvent::Clicked(SwitchClicked { value: true }))));
    assert!(!fx.iter().any(|f| matches!(f, Effect::Emit(SwitchEvent::Changed(_)))));
    let mut o = switch(true);
    let fx = o.handle_widget_event(up(false, true));
    assert_eq!(fx, vec![Effect::SyncAnimator]);
    assert!(o.value);
}

#[test]
fn switch_render_and_reports() {
    let mut s = switch(true);
    s.disabled = true;
    s.render();
    assert_eq!(s.state, SwitchState::Disabled);
    assert_eq!(s.active_changed(), Some(SwitchEvent::Changed(SwitchChanged { value: true })));
    s.scoped = false;
    assert_eq!(s.active_clicked(), None);
}

fn svg() -> GSvg<u8> {
    GSvg {
        style: SvgStyle { basic: 0, hover: 1, pressed: 2, disabled: 3 },
        visible: true,
        disabled: false,
        grab_key_focus: false,
        event_open: true,
        animation_open: true,
        scoped: true,
        src: "icon.svg".to_string(),
        drawn_src: String::new(),
        state: SvgState::Basic,
    }
}

#[test]
fn svg_press_and_release() {
    let mut s = svg();
    let fx = s.handle_widget_event(Hit::FingerDown);
    assert_eq!(s.state, SvgState::Pressed);
    assert_eq!(fx, vec![Effect::SyncAnimator, Effect::Redraw, Effect::Emit(SvgEvent::FingerDown)]);
    let fx = s.handle_widget_event(up(true, true));
    assert_eq!(s.state, SvgState::Hover);
    assert_eq!(fx.last(), Some(&Effect::Emit(SvgEvent::Clicked)));
    let fx = s.handle_widget_event(up(false, true));
    assert_eq!(s.state, SvgState::Basic);
    assert_eq!(fx.last(), Some(&Effect::Emit(SvgEvent::FingerUp)));
}

#[test]
fn svg_hover_cursor_of_new_state() {
    let mut s = svg();
    let fx = s.handle_widget_event(Hit::FingerHoverIn);
    assert_eq!(fx, vec![Effect::SyncAnimator, Effect::Redraw, Effect::Cursor(SvgState::Hover), Effect::Emit(SvgEvent::HoverIn)]);
}

#[test]
fn svg_clone_from_ptr_copies_look_and_source() {
    let mut a = svg();
    let mut b = svg();
    b.style = SvgStyle { basic: 9, hover: 9, pressed: 9, disabled: 9 };
    b.visible = false;
    b.disabled = true;
    b.src = "other.svg".to_string();
    b.state = SvgState::Disabled;
    b.event_open = false;
    a.clone_from_ptr(&b);
    assert_eq!(a.style, b.style);
    assert!(!a.visible && a.disabled);
    assert_eq!(a.src, "other.svg");
    assert_eq!(a.state, SvgState::Disabled);
    assert!(a.event_open);
}

fn slider() -> GSlider {
    GSlider { visible: true, disabled: false, grab_key_focus: true, event_open: true, animation_open: true, scoped: true, state: SliderState::Basic }
}

#[test]
fn slider_drag_and_release() {
    let mut s = slider();
    let fx = s.handle_widget_event(Hit::FingerDown);
    assert_eq!(s.state, SliderState::Dragging);
    assert_eq!(
        fx,
        vec![Effect::SyncAnimator, Effect::Redraw, Effect::KeyFocus, Effect::Animate(Track::DraggingOn), Effect::Emit(SliderEvent::FingerDown)]
    );
    let fx = s.handle_widget_event(Hit::FingerMove);
    assert_eq!(fx, vec![Effect::SyncAnimator, Effect::Redraw]);
    let fx = s.handle_widget_event(up(true, true));
    assert_eq!(s.state, SliderState::Hover);
    assert_eq!(fx.last(), Some(&Effect::Emit(SliderEvent::Changed)));
    assert_eq!(s.active_changed(), Some(SliderEvent::Changed));
}

fn tag() -> GTag {
    GTag { visible: true, disabled: false, grab_key_focus: false, event_open: true, animation_open: true, scoped: true, state: TagState::Basic }
}

#[test]
fn tag_close_hides_it() {
    let mut t = tag();
    let fx = t.handle_event(up(true, true), true);
    assert!(!t.visible);
    assert_eq!(fx.last(), Some(&Effect::Emit(TagEvent::Close)));
    assert!(t.handle_event(up(true, true), true).is_empty());
}

#[test]
fn tag_click_outside_close() {
    let mut t = tag();
    let fx = t.handle_event(up(true, true), false);
    assert!(t.visible);
    assert_eq!(t.state, TagState::Hover);
    assert_eq!(fx.last(), Some(&Effect::Emit(TagEvent::Clicked)));
    t.disabled = true;
    t.render();
    assert_eq!(t.state, TagState::Disabled);
}

fn select() -> GSelect {
    GSelect {
        visible: true,
        disabled: false,
        animation_open: true,
        scoped: true,
        open: false,
        value: String::new(),
        selected: 0,
        state: SelectState::Basic,
    }
}

#[test]
fn select_opens_on_release() {
    let mut s = select();
    let step = s.handle_event(up(true, true), None);
    assert!(s.open);
    assert_eq!(s.state, SelectState::Active);
    assert_eq!(
        step.effects,
        vec![Effect::SyncAnimator, Effect::MarkAnimated, Effect::SyncAnimator, Effect::Redraw, Effect::SweepLock]
    );
    assert_eq!(step.show_option, None);
}

#[test]
fn select_takes_chosen_option_and_closes_on_outside_press() {
    let mut s = select();
    s.open = true;
    let rep = OptionsReport { changed: Some((2, "pear".to_string())), mouse_down: Some(false) };
    let step = s.handle_event(Hit::Nothing, Some(rep));
    assert_eq!(s.value, "pear");
    assert_eq!(s.selected, 2);
    assert!(!s.open);
    assert_eq!(step.show_option, Some(2));
    assert_eq!(
        step.effects,
        vec![
            Effect::SyncAnimator,
            Effect::MarkAnimated,
            Effect::Emit(SelectEvent::Changed(SelectChangedEvent { value: "pear".to_string() })),
            Effect::Redraw,
            Effect::SyncAnimator,
            Effect::Redraw,
            Effect::SweepUnlock,
        ]
    );
}

#[test]
fn select_press_inside_menu_keeps_it_open() {
    let mut s = select();
    s.open = true;
    let step = s.handle_event(Hit::FingerHoverIn, Some(OptionsReport { changed: None, mouse_down: Some(true) }));
    assert!(s.open);
    assert_eq!(s.state, SelectState::Basic);
    assert_eq!(step.effects, vec![Effect::SyncAnimator, Effect::MarkAnimated, Effect::SyncAnimator]);
}

#[test]
fn select_draws_slots_then_menu() {
    let mut s = select();
    s.open = true;
    let (order, menu) = s.draw_walk(&vec![true, true, false], &vec![true, false, false], true);
    assert_eq!(order, vec![1, 0]);
    assert!(menu);
    s.render();
    assert_eq!(s.state, SelectState::Active);
}

fn item(active: bool) -> GSelectItem {
    GSelectItem {
        visible: true,
        disabled: false,
        grab_key_focus: false,
        event_open: true,
        animation_open: true,
        scoped: true,
        active,
        value: "apple".to_string(),
        state: SelectState::Basic,
    }
}

#[test]
fn select_item_release_activates_and_hands_click() {
    let mut i = item(false);
    let (fx, back) = i.handle_event_with_action(up(true, true));
    assert!(i.active);
    assert_eq!(i.state, SelectState::Active);
    assert_eq!(fx, vec![Effect::SyncAnimator]);
    assert_eq!(back, Some(SelectItemEvent::Clicked(SelectItemClicked { active: true, value: "apple".to_string() })));
    let mut swept = item(false);
    let (_, back) = swept.handle_event_with_action(Hit::FingerUp(FingerUp { is_over: true, has_hovers: true, is_sweep: true }));
    assert!(swept.active);
    assert_eq!(back, None);
    let mut active = item(true);
    assert_eq!(active.handle_event_with_action(up(true, true)), (vec![], None));
}

fn tab() -> GTabbarItem {
    GTabbarItem {
        visible: true,
        disabled: false,
        grab_key_focus: false,
        event_open: true,
        animation_open: true,
        scoped: true,
        active: false,
        value: "t".to_string(),
        state: TabbarItemState::Basic,
    }
}

#[test]
fn tab_hands_click_to_bar_or_sends_it() {
    let mut t = tab();
    let (fx, back) = t.handle_event_mixin(up(true, true), true);
    assert!(t.active);
    assert_eq!(back, Some(TabbarItemClicked { active: true, value: "t".to_string() }));
    assert!(!fx.iter().any(|e| matches!(e, Effect::Emit(_))));
    let mut u = tab();
    let fx = u.handle_event(up(true, true));
    assert_eq!(fx.last(), Some(&Effect::Emit(TabbarItemEvent::Clicked(TabbarItemClicked { active: true, value: "t".to_string() }))));
}

#[test]
fn tab_toggle_with_closed_animation_keeps_state() {
    let mut t = tab();
    t.animation_open = false;
    let fx = t.toggle(true, false);
    assert!(t.active);
    assert_eq!(t.state, TabbarItemState::Basic);
    assert_eq!(fx, vec![Effect::Animate(Track::HoverActive), Effect::Emit(TabbarItemEvent::Clicked(TabbarItemClicked { active: true, value: "t".to_string() }))]);
}

fn branch() -> GBranch {
    GBranch {
        visible: true,
        disabled: false,
        grab_key_focus: false,
        event_open: true,
        animation_open: true,
        scoped: true,
        active: false,
        value: "b".to_string(),
        state: BranchState::Basic,
        animation_counter: true,
    }
}

const QUIET: AnimatorReport = AnimatorReport { must_redraw: false, active_animating: false };

#[test]
fn branch_release_opens_and_shuts() {
    let mut b = branch();
    let (fx, to_body) = b.handle_event(up(true, true), QUIET);
    assert!(b.active && to_body);
    assert_eq!(b.state, BranchState::Active);
    assert_eq!(fx.last(), Some(&Effect::Emit(BranchEvent::Changed(BranchChanged { active: true, value: "b".to_string() }))));
    let (_, to_body) = b.handle_event(up(false, true), QUIET);
    assert!(!b.active && !to_body);
    assert_eq!(b.body_plan(), (Track::ActiveOff, false));
}

#[test]
fn branch_counter_redraw_once() {
    let mut b = branch();
    b.animation_open = false;
    let report = AnimatorReport { must_redraw: true, active_animating: true };
    let fx = b.handle_widget_event(Hit::Nothing, report);
    assert_eq!(fx, vec![Effect::Redraw]);
    assert!(!b.animation_counter);
    let fx = b.handle_widget_event(Hit::Nothing, report);
    assert!(fx.is_empty());
    let fx = b.handle_widget_event(Hit::FingerHoverIn, QUIET);
    assert_eq!(fx, vec![Effect::HandCursor]);
}

#[test]
fn branch_state_conversions() {
    assert_eq!(BranchState::from(ViewState::Hover), BranchState::Basic);
    assert_eq!(ViewState::from(BranchState::Active), ViewState::Pressed);
    assert_eq!(SvgState::from(BranchState::Disabled), SvgState::Disabled);
    assert!(!BranchState::Disabled.is_disabled());
}

#[test]
fn tab_slot_lookup_hands_back_an_empty_lookup() {
    assert_eq!(GTabbarItem::uid_to_widget(true, true), SlotLookup::Neither);
    assert_eq!(GTabbarItem::uid_to_widget(true, false), SlotLookup::Icon);
    assert_eq!(GTabbarItem::uid_to_widget(false, true), SlotLookup::Text);
}

#[test]
fn drawing_gives_the_scope_events_need() {
    let mut r = radio(false);
    r.scoped = false;
    r.visible = false;
    assert!(r.draw_walk().is_empty());
    assert!(r.scoped);

    let mut s = switch(false);
    s.scoped = false;
    s.visible = false;
    assert!(!s.draw_walk());
    assert!(s.scoped);

    let mut i = svg();
    i.scoped = false;
    i.visible = false;
    assert!(!i.draw_walk());
    assert!(!i.scoped);
    i.visible = true;
    assert!(i.draw_walk());
    assert!(i.scoped);

    let mut sl = slider();
    sl.scoped = false;
    assert!(sl.draw_walk());
    assert!(sl.scoped);

    let mut t = tag();
    t.scoped = false;
    t.visible = false;
    assert!(!t.draw_walk());
    assert!(!t.scoped);

    let mut tb = tab();
    tb.scoped = false;
    assert!(tb.draw_walk());
    assert!(tb.scoped);

    let mut it = item(false);
    it.scoped = false;
    it.visible = false;
    assert!(!it.draw_walk());
    assert!(!it.scoped);

    let mut sel = select();
    sel.scoped = false;
    sel.visible = false;
    assert_eq!(sel.draw_walk(&vec![true, true, true], &vec![false, false, false], true), (vec![], false));
    assert!(!sel.scoped);
}

#[test]
fn radio_files_document_blocks_by_state_name() {
    assert_eq!(GRadio::after_apply(&"basic".to_string()), Some(RadioState::Basic));
    assert_eq!(GRadio::after_apply(&"hover".to_string()), Some(RadioState::Hover));
    assert_eq!(GRadio::after_apply(&"active".to_string()), Some(RadioState::Active));
    assert_eq!(GRadio::after_apply(&"disabled".to_string()), Some(RadioState::Disabled));
    assert_eq!(GRadio::after_apply(&"pressed".to_string()), None);
    assert_eq!(GRadio::after_apply(&"".to_string()), None);
}

#[test]
fn components_file_document_blocks_by_state_name() {
    let n = |s: &str| s.to_string();
    assert_eq!(GSwitch::after_apply(&n("hover_basic")), Some(SwitchState::HoverBasic));
    assert_eq!(GSwitch::after_apply(&n("hover_active")), Some(SwitchState::HoverActive));
    assert_eq!(GSwitch::after_apply(&n("hover")), None);
    assert_eq!(GTabbarItem::after_apply(&n("active")), Some(TabbarItemState::Active));
    assert_eq!(GSelect::after_apply(&n("disabled")), Some(SelectState::Disabled));
    assert_eq!(GSlider::after_apply(&n("dragging")), Some(SliderState::Dragging));
    assert_eq!(GSlider::after_apply(&n("pressed")), None);
    assert_eq!(GSvg::<u8>::after_apply(&n("pressed")), Some(SvgState::Pressed));
    assert_eq!(GTag::after_apply(&n("basic")), Some(TagState::Basic));
    assert_eq!(GTag::after_apply(&n("Basic")), None);
}

#[test]
fn branch_files_document_blocks_by_state_name() {
    assert_eq!(GBranch::after_apply(&"active".to_string()), Some(BranchState::Active));
    assert_eq!(GBranch::after_apply(&"hover".to_string()), None);
}

#[test]
fn tag_search_takes_the_first_slot_that_found_the_widget() {
    assert_eq!(GTag::uid_to_widget(false, true, true), TagLookup::Text);
    assert_eq!(GTag::uid_to_widget(true, true, true), TagLookup::Icon);
    assert_eq!(GTag::uid_to_widget(false, false, true), TagLookup::Close);
    assert_eq!(GTag::uid_to_widget(false, false, false), TagLookup::Neither);
}

#[test]
fn svg_render_draws_its_source() {
    let mut s = svg();
    s.render();
    assert_eq!(s.drawn_src, "icon.svg".to_string());
    assert_eq!(s.state, SvgState::Basic);
    s.src = "other.svg".to_string();
    s.disabled = true;
    s.render();
    assert_eq!(s.drawn_src, "other.svg".to_string());
    assert_eq!(s.state, SvgState::Disabled);
}
