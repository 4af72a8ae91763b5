use gen_ui::animation::AnimatorSetup;
use gen_ui::children::ApplyFrom;
use gen_ui::group::{fill_value, GRadioGroup, GTabbar, RadioGroupChanged, TabbarChanged, TabbarState};
use gen_ui::radio::{GRadio, RadioClicked, RadioEvent, RadioState};
use gen_ui::tabbar::{GTabbarItem, TabbarItemState};
use gen_ui::widget::{Effect, FingerUp, Hit, Track};

fn radio(value: &str, active: bool) -> GRadio {
    GRadio {
        visible: true,
        radio_visible: true,
        extra_visible: false,
        reverse: false,
        disabled: false,
        grab_key_focus: false,
        event_open: true,
        animation_open: true,
        scoped: true,
        active,
        value: value.to_string(),
        state: RadioState::Basic,
    }
}

fn tab(value: &str, active: bool) -> GTabbarItem {
    GTabbarItem {
        visible: true,
        disabled: false,
        grab_key_focus: false,
        event_open: true,
        animation_open: true,
        scoped: true,
        active,
        value: value.to_string(),
        state: TabbarItemState::Basic,
    }
}

fn click() -> Hit {
    Hit::FingerUp(FingerUp { is_over: true, has_hovers: true, is_sweep: false })
}

#[test]
fn empty_value_named_by_position() {
    assert_eq!(fill_value(String::new(), 3), "3");
    assert_eq!(fill_value("x".to_string(), 3), "x");
}

#[test]
fn radio_group_finds_its_active_radio() {
    let mut g = GRadioGroup { active: None, radios: vec![radio("", false), radio("b", true), radio("", false)] };
    g.find_active();
    assert_eq!(g.active, Some("b".to_string()));
    assert_eq!(g.radios[0].value, "0");
    assert_eq!(g.radios[2].value, "2");
    assert!(!g.has_multiple_active());
}

#[test]
fn radio_group_with_active_value_keeps_it() {
    let mut g = GRadioGroup { active: Some("x".to_string()), radios: vec![radio("", true)] };
    g.find_active();
    assert_eq!(g.active, Some("x".to_string()));
    assert_eq!(g.radios[0].value, "");
}

#[test]
fn radio_group_detects_several_actives() {
    let g = GRadioGroup { active: None, radios: vec![radio("a", true), radio("b", true)] };
    assert!(g.has_multiple_active());
}

#[test]
fn radio_group_toggle_turns_on_exactly_the_matching_radio() {
    let mut g = GRadioGroup { active: None, radios: vec![radio("", true), radio("", false), radio("c", false)] };
    let effects = g.toggle(Some("1".to_string()), false);
    assert_eq!(g.active, Some("1".to_string()));
    let flags: Vec<bool> = g.radios.iter().map(|r| r.active).collect();
    assert_eq!(flags, vec![false, true, false]);
    assert_eq!(g.radios[1].state, RadioState::Active);
    assert_eq!(g.radios[0].state, RadioState::Basic);
    assert_eq!(
        effects[1],
        vec![
            Effect::Animate(Track::HoverActive),
            Effect::Emit(RadioEvent::Clicked(RadioClicked { active: true, value: "1".to_string() })),
        ]
    );
    assert_eq!(effects[0][0], Effect::Animate(Track::HoverOff));
}

#[test]
fn radio_group_set_active_without_value_finds_the_active_one() {
    let mut g = GRadioGroup { active: Some("old".to_string()), radios: vec![radio("", false), radio("", true)] };
    let effects = g.set_active(None);
    assert!(effects.is_empty());
    assert_eq!(g.active, Some("1".to_string()));
}

#[test]
fn radio_group_first_setting_plays_no_animation() {
    let mut g = GRadioGroup { active: None, radios: vec![radio("a", false), radio("b", false)] };
    let effects = g.set_active(Some("b".to_string()));
    assert_eq!(effects[1], vec![Effect::Emit(RadioEvent::Clicked(RadioClicked { active: true, value: "b".to_string() }))]);
    assert!(g.radios[1].active);
}

#[test]
fn radio_group_follows_first_active_click() {
    let mut g = GRadioGroup { active: Some("a".to_string()), radios: vec![radio("a", true), radio("b", false), radio("c", false)] };
    let clicks = vec![
        None,
        Some(RadioClicked { active: false, value: "b".to_string() }),
        Some(RadioClicked { active: true, value: "c".to_string() }),
    ];
    let (changed, _effects) = g.handle_event(&clicks);
    assert_eq!(changed, Some(RadioGroupChanged { value: Some("c".to_string()), index: 2 }));
    assert_eq!(g.active, Some("c".to_string()));
    let flags: Vec<bool> = g.radios.iter().map(|r| r.active).collect();
    assert_eq!(flags, vec![false, false, true]);
}

#[test]
fn radio_group_without_click_stays() {
    let mut g = GRadioGroup { active: Some("a".to_string()), radios: vec![radio("a", true), radio("b", false)] };
    let (changed, effects) = g.handle_event(&vec![None, Some(RadioClicked { active: false, value: "b".to_string() })]);
    assert_eq!(changed, None);
    assert!(effects.is_empty());
    assert!(g.radios[0].active);
}

#[test]
fn radio_group_click_from_radio_effects() {
    let mut r = radio("b", false);
    let fx = r.handle_event(click());
    assert_eq!(gen_ui::group::clicked_in(&fx), Some(RadioClicked { active: true, value: "b".to_string() }));
    assert_eq!(gen_ui::group::clicked_in(&vec![Effect::Redraw]), None);
}

fn bar(items: Vec<GTabbarItem>) -> GTabbar {
    let ids: Vec<u64> = (1..=items.len() as u64).collect();
    GTabbar {
        visible: true,
        disabled: false,
        state: TabbarState::Basic,
        scoped: false,
        active: None,
        ids,
        items,
        live_update_order: Vec::new(),
    }
}

#[test]
fn tabbar_click_switches_the_active_tab() {
    let mut b = bar(vec![tab("", true), tab("", false), tab("", false)]);
    b.active = Some("0".to_string());
    let hits = vec![Hit::Nothing, click(), click()];
    let (changed, round, toggles) = b.handle_event(false, &hits);
    assert_eq!(changed, Some(TabbarChanged { value: Some("1".to_string()), index: 1 }));
    assert_eq!(b.active, Some("1".to_string()));
    // the tab after the clicked one takes no hit
    assert_eq!(round.len(), 2);
    assert_eq!(toggles.len(), 3);
    let flags: Vec<bool> = b.items.iter().map(|t| t.active).collect();
    assert_eq!(flags, vec![false, true, false]);
    let values: Vec<String> = b.items.iter().map(|t| t.value.clone()).collect();
    assert_eq!(values, vec!["0".to_string(), "1".to_string(), "2".to_string()]);
}

#[test]
fn tabbar_active_tab_ignores_clicks() {
    let mut b = bar(vec![tab("a", true), tab("b", false)]);
    b.active = Some("a".to_string());
    let (changed, round, toggles) = b.handle_event(false, &vec![click(), Hit::Nothing]);
    assert_eq!(changed, None);
    assert_eq!(round.len(), 2);
    assert!(toggles.is_empty());
    assert_eq!(b.active, Some("a".to_string()));
}

#[test]
fn tabbar_set_active_index() {
    let mut b = bar(vec![tab("a", true), tab("b", false)]);
    let effects = b.set_active_index(1);
    assert_eq!(b.active, Some("b".to_string()));
    assert!(!b.items[0].active && b.items[1].active);
    assert_eq!(effects.len(), 2);
    let kept = b.set_active_index(9);
    assert_eq!(b.active, Some("b".to_string()));
    assert!(!b.items[0].active && !b.items[1].active);
    assert_eq!(kept.len(), 2);
}

#[test]
fn tabbar_toggle_leaves_the_report_to_the_bar() {
    let mut b = bar(vec![tab("a", false), tab("b", false)]);
    let effects = b.toggle(Some("a".to_string()), false);
    assert!(b.items[0].active && !b.items[1].active);
    assert_eq!(effects[0], vec![Effect::SyncAnimator, Effect::Animate(Track::HoverActive)]);
}

#[test]
fn tabbar_after_apply_finds_active() {
    let mut b = bar(vec![tab("", false), tab("", true)]);
    let effects = b.after_apply(ApplyFrom::NewFromDoc);
    assert!(effects.is_empty());
    assert_eq!(b.active, Some("1".to_string()));
}

#[test]
fn tabbar_draws_visible_tabs_with_its_disabled_flag() {
    let mut b = bar(vec![tab("a", false), tab("b", false), tab("c", false)]);
    b.items[1].visible = false;
    b.disabled = true;
    let order = b.draw_walk(&vec![true, false, false]);
    assert_eq!(order, vec![2, 0]);
    assert!(b.items[0].disabled && !b.items[1].disabled && b.items[2].disabled);
    b.visible = false;
    assert!(b.draw_walk(&vec![false, false, false]).is_empty());
}

#[test]
fn tabbar_live_update_reorders_tabs_then_finds_active() {
    let mut b = bar(vec![tab("a", false), tab("b", true), tab("c", false)]);
    b.live_update_order = vec![3, 2];
    let effects = b.after_apply(ApplyFrom::UpdateFromDoc);
    assert!(effects.is_empty());
    assert_eq!(b.ids, vec![3, 2]);
    let values: Vec<String> = b.items.iter().map(|t| t.value.clone()).collect();
    assert_eq!(values, vec!["c".to_string(), "b".to_string()]);
    assert_eq!(b.active, Some("b".to_string()));
}

#[test]
fn tabbar_live_update_keeps_its_active_value() {
    let mut b = bar(vec![tab("a", false), tab("b", false)]);
    b.active = Some("a".to_string());
    b.live_update_order = vec![2, 1];
    let effects = b.after_apply(ApplyFrom::UpdateFromDoc);
    assert_eq!(effects.len(), 2);
    assert_eq!(b.ids, vec![2, 1]);
    assert!(!b.items[0].active && b.items[1].active);
    assert_eq!(b.items[1].value, "a".to_string());
}

#[test]
fn tabbar_render_shows_disabled() {
    let mut b = bar(vec![tab("a", false)]);
    b.render();
    assert_eq!(b.state, TabbarState::Basic);
    b.disabled = true;
    b.render();
    assert_eq!(b.state, TabbarState::Disabled);
    b.disabled = false;
    b.render();
    assert_eq!(b.state, TabbarState::Disabled);
}

#[test]
fn hidden_tabbar_ignores_events_that_need_visibility() {
    let mut b = bar(vec![tab("a", false), tab("b", false)]);
    b.visible = false;
    let (changed, round, toggles) = b.handle_event(true, &vec![click(), Hit::Nothing]);
    assert_eq!(changed, None);
    assert!(round.is_empty() && toggles.is_empty());
    assert!(!b.items[0].active);
    let (changed, _, _) = b.handle_event(false, &vec![click(), Hit::Nothing]);
    assert_eq!(changed, Some(TabbarChanged { value: Some("a".to_string()), index: 0 }));
}

#[test]
fn tabbar_drawing_gives_a_scope_even_hidden() {
    let mut b = bar(vec![tab("a", false)]);
    b.visible = false;
    assert!(b.draw_walk(&vec![false]).is_empty());
    assert!(b.scoped);
}

#[test]
fn tabbar_animator_writes() {
    let mut b = bar(vec![tab("a", false)]);
    let setup = AnimatorSetup { has_live_ptr: true, has_live_file: true, created: false, init_global: true };
    assert_eq!(b.set_animation(setup).writes, vec![TabbarState::Basic, TabbarState::Disabled]);
    b.scoped = true;
    b.state = TabbarState::Disabled;
    assert_eq!(b.set_animation(setup).writes, vec![TabbarState::Disabled]);
    assert_eq!(TabbarState::Disabled.track(), Track::HoverDisabled);
}
