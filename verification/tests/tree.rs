use jcode_desktop::dirty::DirtyFlags;
use jcode_desktop::geometry::UiRect;
use jcode_desktop::tree::{AccessibilityRole, RetainedUiTree, UiId, UiNode, UiNodeKind};

fn rect(x: f32, y: f32, width: f32, height: f32) -> UiRect {
    UiRect { x: x.to_bits(), y: y.to_bits(), width: width.to_bits(), height: height.to_bits() }
}

#[test]
fn retained_tree_tracks_dirty_nodes_and_semantics() {
    let mut tree = RetainedUiTree::default();
    let mut node = UiNode::new(UiId(1), UiNodeKind::Text)
        .with_semantics(AccessibilityRole::StaticText, "hello");
    node.bounds = rect(1.0, 2.0, 3.0, 4.0);
    node.cache_key = Some(10);
    tree.upsert(node.clone());
    assert_eq!(tree.dirty_nodes().len(), 1);
    let semantics = tree.semantics();
    assert_eq!(semantics.len(), 1);
    assert_eq!(semantics[0].label, "hello");
    tree.clear_dirty();
    assert_eq!(tree.dirty_nodes().len(), 0);

    let mut updated = node;
    updated.cache_key = Some(11);
    tree.upsert(updated);
    assert_eq!(tree.dirty_nodes().len(), 1);
}

#[test]
fn upsert_with_same_cache_key_and_clean_flags_is_not_listed() {
    let mut tree = RetainedUiTree::default();
    let mut node = UiNode::new(UiId(3), UiNodeKind::Row);
    node.cache_key = Some(5);
    tree.upsert(node.clone());
    assert_eq!(tree.dirty_nodes().len(), 1);
    assert_eq!(tree.node(UiId(3)).unwrap().dirty, DirtyFlags { layout: true, paint: true, text: true, semantics: true });
    tree.clear_dirty();
    assert_eq!(tree.node(UiId(3)).unwrap().dirty, DirtyFlags::default());
    tree.upsert(node.clone());
    assert_eq!(tree.dirty_nodes().len(), 0);
    assert_eq!(tree.node(UiId(3)).unwrap(), &node);
}

#[test]
fn new_node_without_cache_key_keeps_its_flags() {
    let mut tree = RetainedUiTree::default();
    tree.upsert(UiNode::new(UiId(4), UiNodeKind::Column));
    assert_eq!(tree.dirty_nodes().len(), 0);
    let mut painted = UiNode::new(UiId(5), UiNodeKind::Column);
    painted.dirty.paint = true;
    tree.upsert(painted);
    let listed = tree.dirty_nodes();
    assert_eq!(listed.len(), 1);
    assert_eq!(listed[0].id, UiId(5));
    assert_eq!(listed[0].dirty, DirtyFlags { layout: false, paint: true, text: false, semantics: false });
}

#[test]
fn mark_dirty_merges_flags_and_ignores_unknown_ids() {
    let mut tree = RetainedUiTree::default();
    tree.upsert(UiNode::new(UiId(2), UiNodeKind::Stack));
    tree.mark_dirty(UiId(99), DirtyFlags { layout: true, paint: true, text: true, semantics: true });
    assert_eq!(tree.dirty_nodes().len(), 0);
    assert!(tree.node(UiId(99)).is_none());
    tree.mark_dirty(UiId(2), DirtyFlags { layout: true, paint: false, text: false, semantics: false });
    tree.mark_dirty(UiId(2), DirtyFlags { layout: false, paint: false, text: true, semantics: false });
    let listed = tree.dirty_nodes();
    assert_eq!(listed.len(), 1);
    assert_eq!(listed[0].dirty, DirtyFlags { layout: true, paint: false, text: true, semantics: false });
    tree.clear_dirty();
    assert!(!tree.node(UiId(2)).unwrap().dirty.any());
}

#[test]
fn dirty_nodes_and_semantics_come_in_id_order() {
    let mut tree = RetainedUiTree::default();
    for id in [30u64, 10, 20] {
        let mut node = UiNode::new(UiId(id), UiNodeKind::Text);
        node.dirty.mark_all();
        if id != 20 {
            node = node.with_semantics(AccessibilityRole::Button, &format!("b{id}"));
        }
        tree.upsert(node);
    }
    let mut unlabelled = UiNode::new(UiId(15), UiNodeKind::Image);
    unlabelled.semantic_role = Some(AccessibilityRole::Image);
    unlabelled.bounds = rect(0.5, 0.5, 8.0, 8.0);
    tree.upsert(unlabelled);
    let ids: Vec<u64> = tree.dirty_nodes().iter().map(|n| n.id.0).collect();
    assert_eq!(ids, vec![10, 20, 30]);
    let semantics = tree.semantics();
    let ids: Vec<u64> = semantics.iter().map(|s| s.id.0).collect();
    assert_eq!(ids, vec![10, 15, 30]);
    assert_eq!(semantics[0].label, "b10");
    assert_eq!(semantics[1].label, "");
    assert_eq!(semantics[1].role, AccessibilityRole::Image);
    assert_eq!(semantics[1].bounds, rect(0.5, 0.5, 8.0, 8.0));
    assert_eq!(semantics[2].label, "b30");
}

#[test]
fn root_is_kept_apart_from_nodes() {
    let mut tree = RetainedUiTree::default();
    assert_eq!(tree.root(), None);
    tree.set_root(Some(UiId(1)));
    assert_eq!(tree.root(), Some(UiId(1)));
    tree.upsert(UiNode::new(UiId(1), UiNodeKind::Root));
    assert_eq!(tree.root(), Some(UiId(1)));
}

#[test]
fn dirty_flags_mark_and_clear() {
    let mut flags = DirtyFlags::default();
    assert!(!flags.any());
    flags.semantics = true;
    assert!(flags.any());
    flags.clear();
    assert_eq!(flags, DirtyFlags::default());
    flags.mark_all();
    assert_eq!(flags, DirtyFlags { layout: true, paint: true, text: true, semantics: true });
}

#[test]
fn new_node_is_empty_and_with_semantics_keeps_the_rest() {
    let node = UiNode::new(UiId(8), UiNodeKind::Surface);
    assert_eq!(node.bounds, UiRect::default());
    assert!(node.children.is_empty());
    assert_eq!(node.cache_key, None);
    assert_eq!(node.label, None);
    let mut node = node;
    node.children.push(UiId(9));
    let labelled = node.clone().with_semantics(AccessibilityRole::Surface, "main");
    assert_eq!(labelled.label.as_deref(), Some("main"));
    assert_eq!(labelled.semantic_role, Some(AccessibilityRole::Surface));
    assert_eq!(labelled.children, vec![UiId(9)]);
    assert_eq!(labelled.kind, UiNodeKind::Surface);
}
