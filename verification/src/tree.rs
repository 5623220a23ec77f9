//! The retained node tree: nodes keyed by identifier, with the set of nodes
//! whose layout, paint, text or semantics must be recomputed.
use vstd::prelude::*;
use std::collections::{BTreeMap, BTreeSet};
use crate::dirty::DirtyFlags;
use crate::geometry::UiRect;
use crate::ordered::{enumerates, keys_in_order, set_in_order, strictly_increasing};

verus! {

broadcast use {vstd::std_specs::btree::group_btree_axioms, vstd::laws_cmp::group_laws_cmp};

/// Identifier of a node in the retained tree.
#[derive(Clone, Copy, Debug, PartialEq, Eq, Hash, PartialOrd, Ord, Structural)]
pub struct UiId(pub u64);

/// What a node is.
#[derive(Clone, Copy, Debug, PartialEq, Eq, Structural)]
pub enum UiNodeKind {
    Root,
    Row,
    Column,
    Stack,
    SplitPane,
    ScrollContainer,
    VirtualList,
    Surface,
    Text,
    Image,
    Overlay,
    SemanticOnly,
}

/// The role a node plays for assistive technology.
#[derive(Clone, Copy, Debug, PartialEq, Eq, Hash, Structural)]
pub enum AccessibilityRole {
    Window,
    Workspace,
    Surface,
    Transcript,
    Message,
    Button,
    TextInput,
    StaticText,
    Image,
    Code,
    ToolCard,
}

/// One node of the retained tree.
#[derive(Clone, Debug, PartialEq)]
pub struct UiNode {
    pub id: UiId,
    pub kind: UiNodeKind,
    pub bounds: UiRect,
    pub children: Vec<UiId>,
    pub dirty: DirtyFlags,
    pub semantic_role: Option<AccessibilityRole>,
    pub label: Option<String>,
    pub cache_key: Option<u64>,
}

/// What assistive technology is told about one node.
#[derive(Clone, Debug, PartialEq)]
pub struct SemanticNode {
    pub id: UiId,
    pub role: AccessibilityRole,
    pub label: String,
    pub bounds: UiRect,
}

/// The text of a node's label, empty where it has none.
pub open spec fn label_text(n: UiNode) -> Seq<char> {
    match n.label {
        Some(l) => l@,
        None => Seq::<char>::empty(),
    }
}

/// `s` is what the node `n` tells assistive technology.
pub open spec fn describes(s: SemanticNode, n: UiNode) -> bool {
    &&& n.semantic_role == Some(s.role)
    &&& s.id == n.id
    &&& s.label@ == label_text(n)
    &&& s.bounds == n.bounds
}

/// The node `n` with its dirty flags replaced by `d`.
pub open spec fn with_dirty(n: UiNode, d: DirtyFlags) -> UiNode {
    UiNode {
        id: n.id,
        kind: n.kind,
        bounds: n.bounds,
        children: n.children,
        dirty: d,
        semantic_role: n.semantic_role,
        label: n.label,
        cache_key: n.cache_key,
    }
}

impl UiNode {
    /// A node with no children, no semantics, no cache key, nothing dirty
    /// and zero bounds.
    pub fn new(id: UiId, kind: UiNodeKind) -> (r: UiNode)
        ensures
            r.id == id,
            r.kind == kind,
            r.bounds == UiRect::zero(),
            r.children@ == Seq::<UiId>::empty(),
            r.dirty == DirtyFlags::none(),
            r.semantic_role is None,
            r.label is None,
            r.cache_key is None,
    {
        UiNode {
            id,
            kind,
            bounds: UiRect::default(),
            children: Vec::new(),
            dirty: DirtyFlags::default(),
            semantic_role: None,
            label: None,
            cache_key: None,
        }
    }

    /// The node with an accessibility role and label attached.
    pub fn with_semantics(self, role: AccessibilityRole, label: &str) -> (r: UiNode)
        ensures
            r.id == self.id,
            r.kind == self.kind,
            r.bounds == self.bounds,
            r.children == self.children,
            r.dirty == self.dirty,
            r.semantic_role == Some(role),
            r.label matches Some(l) && l@ == label@,
            r.cache_key == self.cache_key,
    {
        let mut node = self;
        node.semantic_role = Some(role);
        node.label = Some(label.to_owned());
        node
    }
}

/// The nodes of a tree, keyed by identifier, together with the identifiers
/// of the nodes that are listed as dirty.
#[derive(Clone, Debug)]
pub struct RetainedUiTree {
    root: Option<UiId>,
    nodes: BTreeMap<u64, UiNode>,
    dirty_nodes: BTreeSet<u64>,
}

/// The invariant of a tree: each node is stored under its own identifier,
/// only stored nodes are listed as dirty, and every node with a raised
/// dirty flag is listed.
pub open spec fn tracks_dirty(nodes: Map<u64, UiNode>, dirty: Set<u64>) -> bool {
    &&& forall|k: u64| #[trigger] nodes.contains_key(k) ==> nodes[k].id.0 == k
    &&& forall|k: u64| #[trigger] dirty.contains(k) ==> nodes.contains_key(k)
    &&& forall|k: u64|
        #[trigger] nodes.contains_key(k) && nodes[k].dirty.spec_any() ==> dirty.contains(k)
}

/// The version of `node` that an upsert stores: a node whose cache key
/// differs from the one stored under its identifier (or that is new and has
/// a cache key) gets every dirty flag raised.
pub open spec fn stored_version(nodes: Map<u64, UiNode>, node: UiNode) -> UiNode {
    let existing = if nodes.contains_key(node.id.0) {
        nodes[node.id.0].cache_key
    } else {
        None
    };
    if existing != node.cache_key {
        with_dirty(node, DirtyFlags::all())
    } else {
        node
    }
}

/// The identifiers of a sequence of nodes.
pub open spec fn ids_of(s: Seq<UiNode>) -> Seq<u64> {
    s.map_values(|n: UiNode| n.id.0)
}

/// `r` lists, in increasing order of identifier, exactly the nodes of
/// `nodes` whose identifiers are in `ids`.
pub open spec fn lists_nodes(r: Seq<UiNode>, nodes: Map<u64, UiNode>, ids: Set<u64>) -> bool {
    &&& strictly_increasing(ids_of(r))
    &&& forall|i: int|
        0 <= i < r.len() ==> {
            &&& ids.contains(#[trigger] r[i].id.0)
            &&& nodes.contains_key(r[i].id.0)
            &&& nodes[r[i].id.0] == r[i]
        }
    &&& forall|k: u64|
        ids.contains(k) && nodes.contains_key(k) ==> exists|i: int|
            0 <= i < r.len() && #[trigger] r[i].id.0 == k
}

/// The identifiers of a sequence of semantic descriptions.
pub open spec fn semantic_ids(s: Seq<SemanticNode>) -> Seq<u64> {
    s.map_values(|n: SemanticNode| n.id.0)
}

/// `r` is, in increasing order of identifier, what the nodes of `nodes` that
/// carry an accessibility role tell assistive technology.
pub open spec fn lists_semantics(r: Seq<SemanticNode>, nodes: Map<u64, UiNode>) -> bool {
    &&& strictly_increasing(semantic_ids(r))
    &&& forall|i: int|
        0 <= i < r.len() ==> nodes.contains_key(#[trigger] r[i].id.0) && describes(
            r[i],
            nodes[r[i].id.0],
        )
    &&& forall|k: u64|
        nodes.contains_key(k) && nodes[k].semantic_role is Some ==> exists|i: int|
            0 <= i < r.len() && #[trigger] r[i].id.0 == k
}

impl RetainedUiTree {
    /// The stored nodes, keyed by identifier.
    pub closed spec fn nodes_view(&self) -> Map<u64, UiNode> {
        self.nodes@
    }

    /// The node the tree is rooted at, if any.
    pub closed spec fn root_view(&self) -> Option<UiId> {
        self.root
    }

    /// The identifiers listed as dirty.
    pub closed spec fn dirty_view(&self) -> Set<u64> {
        self.dirty_nodes@
    }

    pub open spec fn wf(&self) -> bool {
        tracks_dirty(self.nodes_view(), self.dirty_view())
    }

    /// The node the tree is rooted at, if any.
    pub fn root(&self) -> (r: Option<UiId>)
        ensures
            r == self.root_view(),
    {
        self.root
    }

    /// Roots the tree at `root`; the nodes and the dirty list stay as they are.
    pub fn set_root(&mut self, root: Option<UiId>)
        ensures
            final(self).root_view() == root,
            final(self).nodes_view() == old(self).nodes_view(),
            final(self).dirty_view() == old(self).dirty_view(),
    {
        self.root = root;
    }

    /// The node stored under `id`, if any.
    pub fn node(&self, id: UiId) -> (r: Option<&UiNode>)
        ensures
            match r {
                Some(n) => self.nodes_view().contains_key(id.0) && *n == self.nodes_view()[id.0],
                None => !self.nodes_view().contains_key(id.0),
            },
    {
        self.nodes.get(&id.0)
    }

    /// The nodes listed as dirty, in increasing order of identifier.
    pub fn dirty_nodes(&self) -> (r: Vec<&UiNode>)
        requires
            self.wf(),
        ensures
            lists_nodes(r@.map_values(|n: &UiNode| *n), self.nodes_view(), self.dirty_view()),
    {
        let ids = set_in_order(&self.dirty_nodes);
        let mut r: Vec<&UiNode> = Vec::new();
        let ghost nodes = self.nodes@;
        let ghost dirty = self.dirty_nodes@;
        let ghost mut out: Seq<UiNode> = Seq::empty();
        for j in 0..ids.len()
            invariant
                enumerates(ids@, dirty),
                nodes == self.nodes@,
                dirty == self.dirty_nodes@,
                tracks_dirty(nodes, dirty),
                out == r@.map_values(|n: &UiNode| *n),
                forall|i: int|
                    0 <= i < out.len() ==> {
                        &&& ids@.take(j as int).contains(#[trigger] out[i].id.0)
                        &&& dirty.contains(out[i].id.0)
                        &&& nodes.contains_key(out[i].id.0)
                        &&& nodes[out[i].id.0] == out[i]
                    },
                strictly_increasing(ids_of(out)),
                forall|m: int|
                    0 <= m < j ==> ids_of(out).contains(#[trigger] ids@[m]),
        {
            let id = ids[j];
            proof {
                assert(dirty.contains(ids@[j as int]));
            }
            match self.nodes.get(&id) {
                Some(n) => {
                    let ghost before = out;
                    r.push(n);
                    proof {
                        out = out.push(*n);
                        assert forall|i: int| 0 <= i < before.len() implies #[trigger] before[i].id.0 < id by {
                            assert(ids@.take(j as int).contains(before[i].id.0));
                            let m = choose|m: int| 0 <= m < j && #[trigger] ids@.take(j as int)[m] == before[i].id.0;
                            assert(ids@[m] == before[i].id.0);
                        }
                        assert forall|a: int, b: int| 0 <= a < b < ids_of(out).len() implies ids_of(out)[a] < ids_of(out)[b] by {
                            if b < before.len() {
                                assert(ids_of(before)[a] < ids_of(before)[b]);
                            } else {
                                assert(before[a].id.0 < id);
                            }
                        }
                        assert forall|i: int| 0 <= i < out.len() implies #[trigger] ids@.take(j + 1).contains(out[i].id.0) by {
                            if i < before.len() {
                                let m = choose|m: int| 0 <= m < j && #[trigger] ids@.take(j as int)[m] == before[i].id.0;
                                assert(ids@.take(j + 1)[m] == before[i].id.0);
                            } else {
                                assert(ids@.take(j + 1)[j as int] == id);
                            }
                        }
                        assert forall|m: int| 0 <= m < j + 1 implies ids_of(out).contains(#[trigger] ids@[m]) by {
                            if m < j {
                                let i = choose|i: int| 0 <= i < before.len() && #[trigger] ids_of(before)[i] == ids@[m];
                                assert(ids_of(out)[i] == ids@[m]);
                            } else {
                                assert(ids_of(out)[before.len() as int] == ids@[m]);
                            }
                        }
                    }
                },
                None => {},
            }
        }
        proof {
            assert forall|k: u64| dirty.contains(k) && nodes.contains_key(k) implies exists|i: int|
                0 <= i < out.len() && #[trigger] out[i].id.0 == k by {
                assert(ids@.contains(k));
                let m = choose|m: int| 0 <= m < ids@.len() && #[trigger] ids@[m] == k;
                assert(ids_of(out).contains(ids@[m]));
                let i = choose|i: int| 0 <= i < out.len() && #[trigger] ids_of(out)[i] == k;
                assert(out[i].id.0 == k);
            }
        }
        r
    }

    /// Lowers every flag of the nodes listed as dirty and empties the list.
    pub fn clear_dirty(&mut self)
        requires
            old(self).wf(),
        ensures
            final(self).wf(),
            final(self).root_view() == old(self).root_view(),
            final(self).dirty_view() == Set::<u64>::empty(),
            final(self).nodes_view().dom() == old(self).nodes_view().dom(),
            forall|k: u64|
                #[trigger] old(self).nodes_view().contains_key(k) ==> final(self).nodes_view()[k]
                    == if old(self).dirty_view().contains(k) {
                    with_dirty(old(self).nodes_view()[k], DirtyFlags::none())
                } else {
                    old(self).nodes_view()[k]
                },
            forall|k: u64|
                #[trigger] final(self).nodes_view().contains_key(k)
                    ==> !final(self).nodes_view()[k].dirty.spec_any(),
    {
        let ids = set_in_order(&self.dirty_nodes);
        let ghost old_nodes = self.nodes@;
        let ghost old_dirty = self.dirty_nodes@;
        self.dirty_nodes = BTreeSet::new();
        for j in 0..ids.len()
            invariant
                enumerates(ids@, old_dirty),
                tracks_dirty(old_nodes, old_dirty),
                self.dirty_nodes@ == Set::<u64>::empty(),
                self.root == old(self).root,
                old_nodes == old(self).nodes@,
                old_dirty == old(self).dirty_nodes@,
                self.nodes@.dom() == old_nodes.dom(),
                forall|k: u64|
                    #[trigger] old_nodes.contains_key(k) ==> self.nodes@[k] == if ids@.take(
                        j as int,
                    ).contains(k) {
                        with_dirty(old_nodes[k], DirtyFlags::none())
                    } else {
                        old_nodes[k]
                    },
        {
            let id = ids[j];
            let ghost before = self.nodes@;
            match self.nodes.remove(&id) {
                Some(node) => {
                    let mut node = node;
                    node.dirty.clear();
                    self.nodes.insert(id, node);
                },
                None => {},
            }
            proof {
                assert(ids@.take(j + 1) == ids@.take(j as int).push(id));
                assert forall|k: u64| #[trigger] old_nodes.contains_key(k) implies self.nodes@[k] == if ids@.take(j + 1).contains(k) {
                    with_dirty(old_nodes[k], DirtyFlags::none())
                } else {
                    old_nodes[k]
                } by {
                    if k == id {
                        assert(ids@.take(j + 1)[j as int] == id);
                        assert(ids@.take(j + 1).contains(k));
                    } else {
                        assert(ids@.take(j + 1).contains(k) == ids@.take(j as int).contains(k));
                    }
                }
                assert(self.nodes@.dom() =~= old_nodes.dom());
            }
        }
        proof {
            assert(ids@.take(ids@.len() as int) == ids@);
            assert forall|k: u64| #[trigger] old_nodes.contains_key(k) implies (ids@.contains(k) <==> old_dirty.contains(k)) by {
                if ids@.contains(k) {
                    let m = choose|m: int| 0 <= m < ids@.len() && #[trigger] ids@[m] == k;
                }
            }
        }
    }

    /// What the nodes that carry an accessibility role tell assistive
    /// technology, in increasing order of identifier; a node without a label
    /// is described by an empty one.
    pub fn semantics(&self) -> (r: Vec<SemanticNode>)
        requires
            self.wf(),
        ensures
            lists_semantics(r@, self.nodes_view()),
    {
        let keys = keys_in_order(&self.nodes);
        let ghost nodes = self.nodes@;
        let mut r: Vec<SemanticNode> = Vec::new();
        for j in 0..keys.len()
            invariant
                enumerates(keys@, nodes.dom()),
                nodes == self.nodes@,
                forall|k: u64| #[trigger] nodes.contains_key(k) ==> nodes[k].id.0 == k,
                forall|i: int|
                    0 <= i < r.len() ==> {
                        &&& keys@.take(j as int).contains(#[trigger] r@[i].id.0)
                        &&& nodes.contains_key(r@[i].id.0)
                        &&& describes(r@[i], nodes[r@[i].id.0])
                    },
                strictly_increasing(semantic_ids(r@)),
                forall|m: int|
                    0 <= m < j && (#[trigger] nodes[keys@[m]]).semantic_role is Some
                        ==> semantic_ids(r@).contains(keys@[m]),
        {
            let key = keys[j];
            proof {
                assert(nodes.contains_key(keys@[j as int]));
            }
            let ghost before = r@;
            match self.nodes.get(&key) {
                Some(node) => {
                    match node.semantic_role {
                        Some(role) => {
                            let label = match &node.label {
                                Some(l) => l.clone(),
                                None => String::new(),
                            };
                            r.push(SemanticNode { id: node.id, role, label, bounds: node.bounds });
                            proof {
                                assert forall|i: int| 0 <= i < before.len() implies #[trigger] before[i].id.0 < key by {
                                    let m = choose|m: int| 0 <= m < j && #[trigger] keys@.take(j as int)[m] == before[i].id.0;
                                    assert(keys@[m] == before[i].id.0);
                                }
                                assert forall|a: int, b: int| 0 <= a < b < semantic_ids(r@).len() implies semantic_ids(r@)[a] < semantic_ids(r@)[b] by {
                                    if b < before.len() {
                                        assert(semantic_ids(before)[a] < semantic_ids(before)[b]);
                                    } else {
                                        assert(before[a].id.0 < key);
                                    }
                                }
                                assert forall|i: int| 0 <= i < r.len() implies #[trigger] keys@.take(j + 1).contains(r@[i].id.0) by {
                                    if i < before.len() {
                                        let m = choose|m: int| 0 <= m < j && #[trigger] keys@.take(j as int)[m] == before[i].id.0;
                                        assert(keys@.take(j + 1)[m] == before[i].id.0);
                                    } else {
                                        assert(keys@.take(j + 1)[j as int] == key);
                                    }
                                }
                                assert forall|m: int| 0 <= m < j + 1 && (#[trigger] nodes[keys@[m]]).semantic_role is Some implies semantic_ids(r@).contains(keys@[m]) by {
                                    if m < j {
                                        let i = choose|i: int| 0 <= i < before.len() && #[trigger] semantic_ids(before)[i] == keys@[m];
                                        assert(semantic_ids(r@)[i] == keys@[m]);
                                    } else {
                                        assert(semantic_ids(r@)[before.len() as int] == keys@[m]);
                                    }
                                }
                            }
                        },
                        None => {
                            proof {
                                assert forall|i: int| 0 <= i < r.len() implies #[trigger] keys@.take(j + 1).contains(r@[i].id.0) by {
                                    let m = choose|m: int| 0 <= m < j && #[trigger] keys@.take(j as int)[m] == r@[i].id.0;
                                    assert(keys@.take(j + 1)[m] == r@[i].id.0);
                                }
                            }
                        },
                    }
                },
                None => {},
            }
        }
        proof {
            assert forall|k: u64| nodes.contains_key(k) && nodes[k].semantic_role is Some implies exists|i: int|
                0 <= i < r@.len() && #[trigger] r@[i].id.0 == k by {
                let m = choose|m: int| 0 <= m < keys@.len() && #[trigger] keys@[m] == k;
                assert(nodes[keys@[m]].semantic_role is Some);
                let i = choose|i: int| 0 <= i < r@.len() && #[trigger] semantic_ids(r@)[i] == k;
                assert(r@[i].id.0 == k);
            }
        }
        r
    }

    /// Inserts or replaces the node stored under `node.id`. A changed cache
    /// key raises every dirty flag; a node with a raised flag is listed as
    /// dirty.
    pub fn upsert(&mut self, node: UiNode)
        requires
            old(self).wf(),
        ensures
            final(self).wf(),
            final(self).root_view() == old(self).root_view(),
            final(self).nodes_view() == old(self).nodes_view().insert(
                node.id.0,
                stored_version(old(self).nodes_view(), node),
            ),
            final(self).dirty_view() == if stored_version(
                old(self).nodes_view(),
                node,
            ).dirty.spec_any() {
                old(self).dirty_view().insert(node.id.0)
            } else {
                old(self).dirty_view()
            },
    {
        let existing_key: Option<u64> = match self.nodes.get(&node.id.0) {
            Some(existing) => existing.cache_key,
            None => None,
        };
        let same_key = match (existing_key, node.cache_key) {
            (Some(a), Some(b)) => a == b,
            (None, None) => true,
            _ => false,
        };
        let mut node = node;
        if !same_key {
            node.dirty.mark_all();
        }
        let id = node.id.0;
        if node.dirty.any() {
            self.dirty_nodes.insert(id);
        }
        self.nodes.insert(id, node);
    }

    /// Raises `flags` on the node stored under `id` and lists it as dirty;
    /// does nothing where no node is stored under `id`.
    pub fn mark_dirty(&mut self, id: UiId, flags: DirtyFlags)
        requires
            old(self).wf(),
        ensures
            final(self).wf(),
            final(self).root_view() == old(self).root_view(),
            old(self).nodes_view().contains_key(id.0) ==> {
                &&& final(self).nodes_view() == old(self).nodes_view().insert(
                    id.0,
                    with_dirty(
                        old(self).nodes_view()[id.0],
                        old(self).nodes_view()[id.0].dirty.union(flags),
                    ),
                )
                &&& final(self).dirty_view() == old(self).dirty_view().insert(id.0)
            },
            !old(self).nodes_view().contains_key(id.0) ==> {
                &&& final(self).nodes_view() == old(self).nodes_view()
                &&& final(self).dirty_view() == old(self).dirty_view()
            },
    {
        match self.nodes.remove(&id.0) {
            Some(node) => {
                let mut node = node;
                node.dirty.layout = node.dirty.layout || flags.layout;
                node.dirty.paint = node.dirty.paint || flags.paint;
                node.dirty.text = node.dirty.text || flags.text;
                node.dirty.semantics = node.dirty.semantics || flags.semantics;
                self.nodes.insert(id.0, node);
                self.dirty_nodes.insert(id.0);
            },
            None => {},
        }
    }

}

impl Default for RetainedUiTree {
    /// An empty tree with no root.
    fn default() -> (t: RetainedUiTree)
        ensures
            t.wf(),
            t.root_view() is None,
            t.nodes_view() == Map::<u64, UiNode>::empty(),
            t.dirty_view() == Set::<u64>::empty(),
    {
        RetainedUiTree { root: None, nodes: BTreeMap::new(), dirty_nodes: BTreeSet::new() }
    }
}

/// Upserting a node whose cache key differs from the one stored under its
/// identifier (or that is new and carries a cache key) stores it with every
/// dirty flag raised, so the upsert lists it as dirty.
pub proof fn law_new_cache_key_marks_everything_dirty(nodes: Map<u64, UiNode>, node: UiNode)
    requires
        nodes.contains_key(node.id.0) ==> nodes[node.id.0].cache_key != node.cache_key,
        !nodes.contains_key(node.id.0) ==> node.cache_key is Some,
    ensures
        stored_version(nodes, node).dirty == DirtyFlags::all(),
        stored_version(nodes, node).dirty.spec_any(),
{
}

/// An upsert stores the node it is given, except that it may raise its
/// dirty flags; with an unchanged cache key it stores the node as given.
pub proof fn law_upsert_stores_the_node(nodes: Map<u64, UiNode>, node: UiNode)
    ensures
        with_dirty(stored_version(nodes, node), node.dirty) == node,
        stored_version(nodes, node).dirty == node.dirty || stored_version(nodes, node).dirty
            == DirtyFlags::all(),
        nodes.contains_key(node.id.0) && nodes[node.id.0].cache_key == node.cache_key
            ==> stored_version(nodes, node) == node,
{
}

/// A listing of the nodes under a set of stored identifiers has one entry per
/// identifier.
pub proof fn law_listing_has_one_entry_per_id(r: Seq<UiNode>, nodes: Map<u64, UiNode>, ids: Set<u64>)
    requires
        lists_nodes(r, nodes, ids),
        forall|k: u64| #[trigger] ids.contains(k) ==> nodes.contains_key(k),
    ensures
        r.len() == ids.len(),
{
    let s = ids_of(r);
    assert(s.no_duplicates()) by {
        assert forall|a: int, b: int| 0 <= a < s.len() && 0 <= b < s.len() && a != b implies s[a] != s[b] by {
            if a < b {
                assert(s[a] < s[b]);
            } else {
                assert(s[b] < s[a]);
            }
        }
    }
    assert(s.to_set() =~= ids) by {
        assert forall|k: u64| ids.contains(k) implies s.to_set().contains(k) by {
            let i = choose|i: int| 0 <= i < r.len() && #[trigger] r[i].id.0 == k;
            assert(s[i] == k);
        }
        assert forall|k: u64| s.to_set().contains(k) implies ids.contains(k) by {
            let i = choose|i: int| 0 <= i < s.len() && #[trigger] s[i] == k;
            assert(ids.contains(r[i].id.0));
        }
    }
    s.unique_seq_to_set();
}

/// Upserting a node that carries any raised dirty flag (the text flag alone
/// included) stores it with that flag still raised, so the upsert lists it as
/// dirty; merging flags into a stored node raises exactly the requested
/// flags on top of the ones it had.
pub proof fn law_raised_flag_is_listed(nodes: Map<u64, UiNode>, node: UiNode, flags: DirtyFlags)
    ensures
        node.dirty.layout || node.dirty.paint || node.dirty.text || node.dirty.semantics
            ==> stored_version(nodes, node).dirty.spec_any(),
        node.dirty.text ==> stored_version(nodes, node).dirty.text,
        with_dirty(node, node.dirty.union(flags)).dirty.text == (node.dirty.text || flags.text),
        with_dirty(node, node.dirty.union(flags)).dirty.layout == (node.dirty.layout
            || flags.layout),
        with_dirty(node, node.dirty.union(flags)).dirty.paint == (node.dirty.paint || flags.paint),
        with_dirty(node, node.dirty.union(flags)).dirty.semantics == (node.dirty.semantics
            || flags.semantics),
{
}

} // verus!
