use gen_ui::text::{join_chain, usize_to_string};
use gen_ui::tree::{
    apply_actives, contains_value, find_actives, generate_value, update_actives, GTree, TreeItemMode, TreeReport,
};

fn leaf(value: &str, active: bool) -> TreeItemMode {
    TreeItemMode::Leaf { value: value.to_string(), active }
}

fn branch(value: &str, active: bool, items: Vec<TreeItemMode>) -> TreeItemMode {
    TreeItemMode::Branch { active, value: value.to_string(), items }
}

fn value_of(item: &TreeItemMode) -> String {
    match item {
        TreeItemMode::Branch { value, .. } => value.clone(),
        TreeItemMode::Leaf { value, .. } => value.clone(),
    }
}

fn active_of(item: &TreeItemMode) -> bool {
    match item {
        TreeItemMode::Branch { active, .. } => *active,
        TreeItemMode::Leaf { active, .. } => *active,
    }
}

fn children_of(item: &TreeItemMode) -> &Vec<TreeItemMode> {
    match item {
        TreeItemMode::Branch { items, .. } => items,
        TreeItemMode::Leaf { .. } => panic!("a leaf has no items"),
    }
}

fn sample_tree() -> Vec<TreeItemMode> {
    vec![
        branch("", false, vec![leaf("", false), leaf("", true)]),
        leaf("settings", false),
        branch("more", false, vec![branch("", false, vec![leaf("", false)])]),
    ]
}

#[test]
fn decimal_rendering() {
    assert_eq!(usize_to_string(0), "0");
    assert_eq!(usize_to_string(7), "7");
    assert_eq!(usize_to_string(10), "10");
    assert_eq!(usize_to_string(1234), "1234");
}

#[test]
fn index_chain_joined_by_underscores() {
    assert_eq!(join_chain(&vec![2, 1]), "2_1");
    assert_eq!(join_chain(&vec![0]), "0");
    assert_eq!(join_chain(&vec![]), "");
    assert_eq!(join_chain(&vec![10, 0, 3]), "10_0_3");
}

#[test]
fn value_generated_only_when_missing() {
    assert_eq!(generate_value(String::new(), &vec![2, 1]), "2_1");
    assert_eq!(generate_value("home".to_string(), &vec![2, 1]), "home");
}

#[test]
fn list_membership_by_value() {
    let list = vec!["a".to_string(), "b".to_string()];
    assert!(contains_value(&list, &"b".to_string()));
    assert!(!contains_value(&list, &"c".to_string()));
}

#[test]
fn finding_names_items_by_index_chain() {
    let (named, found) = find_actives(sample_tree());
    assert_eq!(value_of(&named[0]), "0");
    assert_eq!(value_of(&children_of(&named[0])[0]), "0_0");
    assert_eq!(value_of(&children_of(&named[0])[1]), "0_1");
    assert_eq!(value_of(&named[1]), "settings");
    assert_eq!(value_of(&named[2]), "more");
    assert_eq!(value_of(&children_of(&named[2])[0]), "2_0");
    assert_eq!(value_of(&children_of(&children_of(&named[2])[0])[0]), "2_0_0");
    assert_eq!(found, vec!["0_1".to_string()]);
}

#[test]
fn actives_spread_over_the_tree() {
    let items = apply_actives(sample_tree(), &vec!["2_0_0".to_string(), "settings".to_string()]);
    // a leaf is active exactly when its value is listed
    assert!(!active_of(&children_of(&items[0])[1]));
    assert!(active_of(&items[1]));
    // a branch is active exactly when it has leaves and all of them are active
    assert!(!active_of(&items[0]));
    assert!(active_of(&items[2]));
    assert!(active_of(&children_of(&items[2])[0]));
}

#[test]
fn spreading_twice_changes_nothing() {
    let actives = vec!["0_0".to_string()];
    let once = apply_actives(sample_tree(), &actives);
    let twice = apply_actives(apply_actives(sample_tree(), &actives), &actives);
    for (a, b) in once.iter().zip(twice.iter()) {
        assert_eq!(value_of(a), value_of(b));
        assert_eq!(active_of(a), active_of(b));
    }
}

#[test]
fn toggled_item_joins_or_leaves_the_actives() {
    let mut actives = vec!["a".to_string()];
    update_actives(&mut actives, &"b".to_string(), true);
    assert_eq!(actives, vec!["a".to_string(), "b".to_string()]);
    update_actives(&mut actives, &"b".to_string(), true);
    assert_eq!(actives, vec!["a".to_string(), "b".to_string()]);
    update_actives(&mut actives, &"a".to_string(), false);
    assert_eq!(actives, vec!["b".to_string()]);
    update_actives(&mut actives, &"z".to_string(), false);
    assert_eq!(actives, vec!["b".to_string()]);
}

fn sample_gtree() -> GTree {
    GTree {
        visible: true,
        body_visible: true,
        event_open: true,
        scoped: true,
        actives: Vec::new(),
        items: sample_tree(),
        item_modes: Vec::new(),
    }
}

#[test]
fn tree_reports_its_first_active_leaf() {
    let mut tree = sample_gtree();
    assert_eq!(tree.find_actives(), Some("0_1".to_string()));
    // the first active leaf is taken over as the tree's actives
    assert_eq!(tree.actives, vec!["0_1".to_string()]);
    assert_eq!(tree.item_modes.len(), 3);
    assert_eq!(value_of(&tree.item_modes[0]), "0");
    let mut hidden = sample_gtree();
    hidden.body_visible = false;
    hidden.item_modes = sample_tree();
    assert_eq!(hidden.find_actives(), None);
    assert!(hidden.actives.is_empty());
    assert!(hidden.item_modes.is_empty());
}

#[test]
fn tree_without_active_leaf_reports_none() {
    let mut tree = GTree {
        visible: true,
        body_visible: true,
        event_open: true,
        scoped: true,
        actives: Vec::new(),
        items: vec![branch("b", true, vec![leaf("x", false)])],
        item_modes: Vec::new(),
    };
    assert_eq!(tree.find_actives(), None);
    assert!(tree.actives.is_empty());
}

#[test]
fn tree_acts_on_a_leaf_click() {
    let mut tree = sample_gtree();
    let _ = tree.find_actives();
    let reports = vec![
        TreeReport::Branch { changed: None, items: vec![TreeReport::Leaf { clicked: Some((true, "0_0".to_string())) }, TreeReport::Leaf { clicked: None }] },
        TreeReport::Leaf { clicked: Some((true, "settings".to_string())) },
        TreeReport::Branch { changed: None, items: vec![] },
    ];
    let changed = tree.handle_event(&reports).expect("a change is reported");
    assert_eq!(changed.actives, vec!["0_1".to_string(), "0_0".to_string()]);
    assert_eq!(tree.actives, vec!["0_1".to_string(), "0_0".to_string()]);
    assert!(active_of(&children_of(&tree.items[0])[0]));
    // both leaves of the branch are active now, so the branch is too
    assert!(active_of(&tree.items[0]));
    assert!(!active_of(&tree.items[1]));
    // the copy of the items was taken before the click was acted on
    assert!(!active_of(&children_of(&tree.item_modes[0])[0]));
}

#[test]
fn branch_change_takes_precedence_over_earlier_leaf_click() {
    let mut tree = sample_gtree();
    let _ = tree.find_actives();
    let reports = vec![
        TreeReport::Leaf { clicked: Some((true, "0_0".to_string())) },
        TreeReport::Branch { changed: Some((true, "more".to_string())), items: vec![] },
    ];
    let changed = tree.handle_event(&reports).expect("a change is reported");
    assert_eq!(changed.actives, vec!["0_1".to_string(), "more".to_string()]);
}

#[test]
fn closed_tree_events_change_nothing() {
    let mut tree = sample_gtree();
    tree.event_open = false;
    let reports = vec![TreeReport::Leaf { clicked: Some((true, "settings".to_string())) }];
    assert!(tree.handle_event(&reports).is_none());
    assert_eq!(tree.actives, vec!["settings".to_string()]);
    let mut hidden = sample_gtree();
    hidden.visible = false;
    assert!(hidden.handle_event(&reports).is_none());
    assert!(hidden.actives.is_empty());
}

#[test]
fn tree_after_apply_spreads_its_actives() {
    let mut tree = sample_gtree();
    tree.actives = vec!["settings".to_string()];
    tree.after_apply();
    assert!(active_of(&tree.items[1]));
    assert!(!active_of(&children_of(&tree.items[0])[1]));
    assert_eq!(tree.item_modes.len(), 3);
    let mut fresh = sample_gtree();
    fresh.after_apply();
    assert_eq!(value_of(&fresh.items[0]), "0");
    assert_eq!(fresh.actives, vec!["0_1".to_string()]);
    assert_eq!(fresh.item_modes.len(), 3);
}

#[test]
fn tree_draws_its_body_where_visible() {
    let mut tree = sample_gtree();
    tree.scoped = false;
    tree.body_visible = false;
    assert_eq!(tree.draw_walk(), (true, false));
    assert!(tree.scoped);
    let mut hidden = sample_gtree();
    hidden.scoped = false;
    hidden.visible = false;
    assert_eq!(hidden.draw_walk(), (false, false));
    assert!(!hidden.scoped);
}

#[test]
fn branch_is_active_only_when_all_its_leaves_are() {
    let one = apply_actives(sample_tree(), &vec!["0_0".to_string()]);
    assert!(!active_of(&one[0]));
    let both = apply_actives(sample_tree(), &vec!["0_0".to_string(), "0_1".to_string()]);
    assert!(active_of(&both[0]));
    let empty = apply_actives(vec![branch("e", true, vec![])], &vec!["e".to_string()]);
    assert!(!active_of(&empty[0]));
}

#[test]
fn tree_without_reports_changes_nothing() {
    let mut tree = sample_gtree();
    assert!(tree.handle_event(&vec![]).is_none());
    assert!(tree.item_modes.is_empty());
    assert_eq!(value_of(&tree.items[0]), "");
}
