use gen_ui::children::{apply_value_instance, before_apply, draw_order, position_of, reorder_children, ApplyFrom, ApplyPlan};
use gen_ui::popup::GPopup;
use gen_ui::router::{GPage, PageAction, RouterEvent};
use gen_ui::select::{GSelectItem, GSelectOptions, SelectState};
use gen_ui::state::ViewState;
use gen_ui::view::{
    child_order, hash_path, is_draw_list, is_texture, needs_draw_list, EventOrder, FindCache, FindPlan, GView,
    ViewEvent, ViewEventInfo, ViewOptimize, WidgetCache,
};
use gen_ui::widget::{Effect, FingerUp, Hit, Track};

#[test]
fn first_position_of_an_id() {
    let ids = vec![5, 7, 5];
    assert_eq!(position_of(&ids, 5), Some(0));
    assert_eq!(position_of(&ids, 7), Some(1));
    assert_eq!(position_of(&ids, 9), None);
}

#[test]
fn live_update_restores_listed_order() {
    let mut children = vec![(1u64, 'a'), (2, 'b'), (3, 'c')];
    reorder_children(&mut children, &vec![3, 1]);
    assert_eq!(children, vec![(3, 'c'), (1, 'a')]);
    let mut same = vec![(1u64, 'a'), (2, 'b')];
    reorder_children(&mut same, &vec![1, 2]);
    assert_eq!(same, vec![(1, 'a'), (2, 'b')]);
    let mut kept = vec![(1u64, 'a'), (2, 'b')];
    reorder_children(&mut kept, &vec![2, 1, 9]);
    assert_eq!(kept, vec![(2, 'b'), (1, 'a')]);
}

#[test]
fn applying_a_document_value() {
    let ids = vec![10, 20];
    let mut order = vec![];
    assert_eq!(apply_value_instance(&ids, &mut order, ApplyFrom::Animate, true, 20), ApplyPlan::ApplyTo(1));
    assert_eq!(apply_value_instance(&ids, &mut order, ApplyFrom::Over, true, 30), ApplyPlan::Skip);
    assert!(order.is_empty());
    assert_eq!(apply_value_instance(&ids, &mut order, ApplyFrom::UpdateFromDoc, true, 30), ApplyPlan::PushNew);
    assert_eq!(order, vec![30]);
    assert_eq!(apply_value_instance(&ids, &mut order, ApplyFrom::NewFromDoc, true, 10), ApplyPlan::ApplyTo(0));
    assert_eq!(apply_value_instance(&ids, &mut order, ApplyFrom::NewFromDoc, false, 10), ApplyPlan::NoMatchingField);
    assert_eq!(apply_value_instance(&ids, &mut order, ApplyFrom::Other, true, 10), ApplyPlan::Skip);
    assert_eq!(order, vec![30]);
    assert!(before_apply(&mut order, ApplyFrom::UpdateFromDoc));
    assert!(order.is_empty());
    order.push(4);
    assert!(!before_apply(&mut order, ApplyFrom::NewFromDoc));
    assert_eq!(order, vec![4]);
}

#[test]
fn direct_draws_come_before_deferred_ones() {
    let ids = vec![1, 2, 3, 4];
    let order = draw_order(&ids, &vec![true, true, false, true], &vec![true, false, false, false]);
    assert_eq!(order, vec![1, 3, 0]);
}

#[test]
fn dispatch_orders() {
    let ids = vec![1, 2, 3];
    assert_eq!(child_order(&ids, &EventOrder::Up), vec![2, 1, 0]);
    assert_eq!(child_order(&ids, &EventOrder::Down), vec![0, 1, 2]);
    assert_eq!(child_order(&ids, &EventOrder::List(vec![3, 9, 1, 3])), vec![2, 0, 2]);
}

#[test]
fn search_key_combines_ids() {
    assert_eq!(hash_path(&vec![]), 0);
    assert_eq!(hash_path(&vec![6]), 6);
    assert_eq!(hash_path(&vec![6, 3]), 5);
    assert_eq!(hash_path(&vec![6, 3]), hash_path(&vec![3, 6]));
}

#[test]
fn search_cache_plans() {
    let mut cache: FindCache<&str> = FindCache::new();
    assert_eq!(cache.plan(&vec![1, 2], WidgetCache::No), FindPlan::Search);
    assert_eq!(cache.plan(&vec![1, 2], WidgetCache::Yes), FindPlan::SearchAndCache(3));
    cache.insert(3, "found");
    cache.insert(3, "later");
    assert_eq!(cache.plan(&vec![2, 1], WidgetCache::Yes), FindPlan::Cached(0));
    assert_eq!(cache.find(3), Some(0));
    assert_eq!(cache.plan(&vec![], WidgetCache::Clear), FindPlan::Stop);
    assert!(cache.entries.is_empty());
}

#[test]
fn view_optimizations() {
    assert!(is_texture(ViewOptimize::Texture));
    assert!(!is_texture(ViewOptimize::DrawList));
    assert!(is_draw_list(ViewOptimize::DrawList));
    assert!(needs_draw_list(ViewOptimize::Texture));
    assert!(!needs_draw_list(ViewOptimize::Plain));
}

fn view() -> GView {
    GView {
        visible: true,
        disabled: false,
        grab_key_focus: false,
        event_open: true,
        animation_open: true,
        scoped: true,
        block_signal_event: false,
        event_order: EventOrder::Up,
        state: ViewState::Basic,
    }
}

fn info() -> ViewEventInfo {
    ViewEventInfo { requires_visibility: true, is_signal: false, query_invalidated: false, has_animator: false }
}

#[test]
fn view_hands_event_to_children_then_takes_hit() {
    let mut v = view();
    let step = v.handle_event(&vec![1, 2], info(), Hit::FingerHoverOver);
    assert_eq!(step.children, vec![1, 0]);
    assert!(!step.clear_cache);
    assert_eq!(v.state, ViewState::Hover);
    assert_eq!(
        step.effects,
        vec![
            Effect::SyncAnimator,
            Effect::MarkAnimated,
            Effect::Cursor(ViewState::Basic),
            Effect::SyncAnimator,
            Effect::Animate(Track::HoverOn),
            Effect::Emit(ViewEvent::HoverOver),
        ]
    );
}

#[test]
fn view_blocks_signals_and_hidden_views_skip() {
    let mut v = view();
    v.block_signal_event = true;
    let step = v.handle_event(&vec![1], ViewEventInfo { is_signal: true, ..info() }, Hit::KeyDown);
    assert!(step.children.is_empty());
    assert_eq!(step.effects, vec![Effect::SyncAnimator, Effect::MarkAnimated]);
    let mut hidden = view();
    hidden.visible = false;
    let step = hidden.handle_event(&vec![1], info(), Hit::KeyDown);
    assert!(step.children.is_empty() && step.effects.is_empty());
    let step = hidden.handle_event(&vec![1], ViewEventInfo { requires_visibility: false, query_invalidated: true, ..info() }, Hit::KeyDown);
    assert_eq!(step.children, vec![0]);
    assert!(step.clear_cache);
    assert_eq!(hidden.state, ViewState::Basic);
}

#[test]
fn view_keys_press_and_release() {
    let mut v = view();
    let fx = v.handle_widget_event(Hit::KeyDown);
    assert_eq!(v.state, ViewState::Pressed);
    assert_eq!(fx, vec![Effect::SyncAnimator, Effect::Emit(ViewEvent::KeyDown)]);
    let fx = v.handle_widget_event(Hit::FingerUp(FingerUp { is_over: true, has_hovers: false, is_sweep: false }));
    assert_eq!(v.state, ViewState::Basic);
    assert_eq!(fx.last(), Some(&Effect::Emit(ViewEvent::Clicked)));
    v.event_open = false;
    assert_eq!(v.handle_widget_event(Hit::KeyUp), vec![Effect::SyncAnimator]);
    assert_eq!(ViewState::Pressed.id(), Track::HoverPressed);
    assert_eq!(ViewState::Disabled.id(), Track::HoverOff);
}

#[test]
fn popup_follows_live_update_and_dispatches() {
    let mut p: GPopup<char, u8> = GPopup {
        visible: true,
        block_signal_event: false,
        event_order: EventOrder::Down,
        children: vec![(1, 'a'), (2, 'b')],
        live_update_order: vec![],
        find_cache: FindCache::new(),
    };
    p.find_cache.insert(1, 7);
    p.before_apply(ApplyFrom::UpdateFromDoc);
    assert!(p.find_cache.entries.is_empty());
    assert_eq!(p.apply_value_instance(ApplyFrom::UpdateFromDoc, true, 2), ApplyPlan::ApplyTo(1));
    assert_eq!(p.apply_value_instance(ApplyFrom::UpdateFromDoc, true, 3), ApplyPlan::PushNew);
    p.push_child(3, 'c');
    p.after_apply(ApplyFrom::UpdateFromDoc);
    assert_eq!(p.children, vec![(2, 'b'), (3, 'c')]);
    assert_eq!(p.handle_event_with(info()), vec![0, 1]);
    assert_eq!(p.draw_walk(&vec![true, false], &vec![false, false]), vec![0]);
    p.visible = false;
    assert!(p.handle_event_with(info()).is_empty());
    assert!(p.draw_walk(&vec![true, true], &vec![false, false]).is_empty());
}

#[test]
fn select_menu_items_take_hits_in_order() {
    let item = |value: &str, disabled: bool| GSelectItem {
        visible: true,
        disabled,
        grab_key_focus: false,
        event_open: true,
        animation_open: true,
        scoped: true,
        active: false,
        value: value.to_string(),
        state: SelectState::Basic,
    };
    let mut menu = GSelectOptions { visible: true, children: vec![], live_update_order: vec![] };
    assert_eq!(menu.apply_value_instance(ApplyFrom::NewFromDoc, true, 4), ApplyPlan::PushNew);
    menu.push_child(4, item("a", false));
    menu.push_child(5, item("b", true));
    let fx = menu.handle_event_with(&vec![Hit::FingerHoverIn, Hit::FingerHoverIn]);
    assert_eq!(fx[0], vec![Effect::SyncAnimator, Effect::MarkAnimated]);
    assert_eq!(fx[1].len(), 4);
    assert_eq!(menu.children[1].1.state, SelectState::Disabled);
}

#[test]
fn page_passes_navigation_on() {
    let page = GPage { visible: true };
    let actions = page.handle_event(&vec![RouterEvent::NavTo(8), RouterEvent::NavBack(3)], true, 42);
    assert_eq!(actions, vec![PageAction::NavToPath(8), PageAction::NavBackPath, PageAction::SendNavBack(42)]);
    assert!(page.handle_event(&vec![], false, 1).is_empty());
    let mut p = page;
    assert!(p.set_visible_and_redraw(false));
    assert!(!p.visible);
}

#[test]
fn view_files_document_blocks_by_state_name() {
    assert_eq!(GView::after_apply(&"pressed".to_string()), Some(ViewState::Pressed));
    assert_eq!(GView::after_apply(&"active".to_string()), None);
}

#[test]
fn menu_files_its_basic_block() {
    assert_eq!(GSelectOptions::after_apply(&"basic".to_string()), Some(gen_ui::popup::PopupState::Basic));
    assert_eq!(GSelectOptions::after_apply(&"hover".to_string()), None);
}
