//! An ordered hierarchy: every node has at most one parent and an ordered list of nested nodes.
use vstd::prelude::*;

use crate::ids::NodeKey;

verus! {

/// The abstract state of one node: its parent and its ordered nested nodes.
pub struct NodeView<Id> {
    pub parent: Option<Id>,
    pub nested: Seq<Id>,
}

/// The abstract state of a whole hierarchy: the nodes that exist and their state.
pub type HierarchyView<Id> = Map<Id, NodeView<Id>>;

pub open spec fn empty_node<Id>() -> NodeView<Id> {
    NodeView { parent: None, nested: Seq::empty() }
}

/// Every nested link is mirrored by the nested node's parent link and vice versa, and no nested
/// list holds an id twice.
pub open spec fn links_consistent<Id>(m: HierarchyView<Id>) -> bool {
    &&& forall|p: Id, c: Id|
        #![trigger m[p].nested.contains(c)]
        m.contains_key(p) && m[p].nested.contains(c) ==> m.contains_key(c) && m[c].parent == Some(p)
    &&& forall|c: Id|
        #![trigger m[c].parent]
        m.contains_key(c) && m[c].parent is Some ==> m.contains_key(m[c].parent->0)
            && m[m[c].parent->0].nested.contains(c)
    &&& forall|p: Id| #![trigger m[p].nested] m.contains_key(p) ==> m[p].nested.no_duplicates()
}

/// The `k`-th ancestor of `r` (`r` itself for `k == 0`), if the chain of parents is that long.
pub open spec fn ancestor<Id>(m: HierarchyView<Id>, r: Id, k: nat) -> Option<Id>
    decreases k,
{
    if !m.contains_key(r) {
        None
    } else if k == 0 {
        Some(r)
    } else {
        match m[r].parent {
            Some(p) => ancestor(m, p, (k - 1) as nat),
            None => None,
        }
    }
}

/// `r` lies in the subtree rooted at `a`: following parents from `r` reaches `a`.
pub open spec fn in_subtree<Id>(m: HierarchyView<Id>, r: Id, a: Id) -> bool {
    exists|k: nat| ancestor(m, r, k) == Some(a)
}

/// Why a hierarchy operation was refused.
#[derive(Debug, Clone, Copy, PartialEq, Eq, Structural)]
pub enum HierarchyError {
    /// The node to be nested has a parent already.
    AlreadyNested,
    /// The insertion index lies beyond the end of the parent's nested list.
    IndexOutOfBounds { index: usize, len: usize },
    /// The node does not exist.
    NotFound,
}

/// The hierarchy after `add(parent, nested)` succeeded: `nested` gets `parent` as its parent and
/// is appended to `parent`'s nested list; missing nodes are created first.
pub open spec fn spec_add<Id>(m: HierarchyView<Id>, parent: Id, nested: Id) -> HierarchyView<Id> {
    let nested_before = if m.contains_key(nested) { m[nested].nested } else { Seq::empty() };
    let m1 = m.insert(nested, NodeView { parent: Some(parent), nested: nested_before });
    let p = if m1.contains_key(parent) { m1[parent] } else { empty_node() };
    m1.insert(parent, NodeView { parent: p.parent, nested: p.nested.push(nested) })
}

/// `add(parent, nested)` is refused exactly when `nested` has a parent already.
pub open spec fn add_refused<Id>(m: HierarchyView<Id>, nested: Id) -> bool {
    m.contains_key(nested) && m[nested].parent is Some
}

pub proof fn lemma_add_preserves_links<Id>(m: HierarchyView<Id>, parent: Id, nested: Id)
    requires
        links_consistent(m),
        !add_refused(m, nested),
    ensures
        links_consistent(spec_add(m, parent, nested)),
{
    let r = spec_add(m, parent, nested);
    assert forall|p: Id, c: Id| r.contains_key(p) && r[p].nested.contains(c) implies r.contains_key(c)
        && r[c].parent == Some(p) by {
        if p == parent {
            if c == nested {
            } else {
                let pn = if m.contains_key(parent) && parent != nested { m[parent].nested } else if parent == nested && m.contains_key(nested) { m[nested].nested } else { Seq::empty() };
                assert(r[p].nested == pn.push(nested));
                assert(pn.contains(c));
            }
        } else if p == nested {
            assert(m[p].nested.contains(c));
        } else {
            assert(m[p].nested.contains(c));
        }
    }
    assert forall|c: Id| r.contains_key(c) && r[c].parent is Some implies r.contains_key(r[c].parent->0)
        && r[r[c].parent->0].nested.contains(c) by {
        if c == nested {
            assert(r[parent].nested.last() == nested);
        } else {
            let q = m[c].parent->0;
            assert(m[q].nested.contains(c));
            if q == parent {
                let i = choose|i: int| 0 <= i < m[q].nested.len() && m[q].nested[i] == c;
                assert(r[q].nested[i] == c);
            }
        }
    }
    assert forall|p: Id| r.contains_key(p) implies r[p].nested.no_duplicates() by {
        if p == parent {
            let base = if p == nested { if m.contains_key(nested) { m[nested].nested } else { Seq::empty() } } else if m.contains_key(p) { m[p].nested } else { Seq::empty() };
            assert(r[p].nested == base.push(nested));
            if base.contains(nested) {
                assert(m.contains_key(nested) && m[nested].parent is Some);
            }
        }
    }
}

/// The hierarchy `m` with `parent` created (as an empty root) when it is missing.
pub open spec fn with_node<Id>(m: HierarchyView<Id>, parent: Id) -> HierarchyView<Id> {
    if m.contains_key(parent) {
        m
    } else {
        m.insert(parent, empty_node())
    }
}

/// The length of `parent`'s nested list (zero when it does not exist).
pub open spec fn nested_len<Id>(m: HierarchyView<Id>, parent: Id) -> nat {
    if m.contains_key(parent) {
        m[parent].nested.len()
    } else {
        0
    }
}

/// The hierarchy after `insert_at(parent, index, nested)` succeeded: `nested` gets `parent` as
/// its parent and is inserted at `index` into `parent`'s nested list.
pub open spec fn spec_insert_at<Id>(m: HierarchyView<Id>, parent: Id, index: int, nested: Id) -> HierarchyView<Id> {
    let m0 = with_node(m, parent);
    let nested_before = if m0.contains_key(nested) { m0[nested].nested } else { Seq::empty() };
    let m1 = m0.insert(nested, NodeView { parent: Some(parent), nested: nested_before });
    m1.insert(parent, NodeView { parent: m1[parent].parent, nested: m1[parent].nested.insert(index, nested) })
}

pub proof fn lemma_with_node_preserves_links<Id>(m: HierarchyView<Id>, parent: Id)
    requires
        links_consistent(m),
    ensures
        links_consistent(with_node(m, parent)),
{
    let r = with_node(m, parent);
    assert forall|c: Id| r.contains_key(c) && r[c].parent is Some implies r.contains_key(r[c].parent->0)
        && r[r[c].parent->0].nested.contains(c) by {
        if !m.contains_key(c) {
            assert(c == parent);
            assert(r[parent].parent is None);
        }
        assert(m.contains_key(c));
    }
    assert forall|p: Id, c: Id| r.contains_key(p) && r[p].nested.contains(c) implies r.contains_key(c)
        && r[c].parent == Some(p) by {
        if !m.contains_key(p) {
            assert(p == parent);
            assert(r[parent].nested.len() == 0);
        }
        assert(m.contains_key(p));
    }
}

pub proof fn lemma_insert_at_preserves_links<Id>(m: HierarchyView<Id>, parent: Id, index: int, nested: Id)
    requires
        links_consistent(m),
        m.contains_key(parent),
        0 <= index <= m[parent].nested.len(),
        !add_refused(m, nested),
    ensures
        links_consistent(spec_insert_at(m, parent, index, nested)),
{
    let r = spec_insert_at(m, parent, index, nested);
    assert(with_node(m, parent) == m);
    let base = if parent == nested { m[nested].nested } else { m[parent].nested };
    assert(r[parent].nested == base.insert(index, nested));
    assert forall|c: Id| base.insert(index, nested).contains(c) implies c == nested || base.contains(c) by {
        let i = choose|i: int| 0 <= i < base.len() + 1 && base.insert(index, nested)[i] == c;
        if i < index {
            assert(base[i] == c);
        } else if i > index {
            assert(base[i - 1] == c);
        }
    }
    assert forall|c: Id| base.contains(c) implies base.insert(index, nested).contains(c) by {
        let i = choose|i: int| 0 <= i < base.len() && base[i] == c;
        if i < index {
            assert(base.insert(index, nested)[i] == c);
        } else {
            assert(base.insert(index, nested)[i + 1] == c);
        }
    }
    assert forall|p: Id, c: Id| r.contains_key(p) && r[p].nested.contains(c) implies r.contains_key(c)
        && r[c].parent == Some(p) by {
        if p == parent {
            if c != nested {
                assert(base.contains(c));
            }
        } else {
            assert(m[p].nested.contains(c));
        }
    }
    assert forall|c: Id| r.contains_key(c) && r[c].parent is Some implies r.contains_key(r[c].parent->0)
        && r[r[c].parent->0].nested.contains(c) by {
        if c == nested {
            assert(base.insert(index, nested)[index] == nested);
        } else {
            let q = m[c].parent->0;
            assert(m[q].nested.contains(c));
            if q == parent {
                assert(base.contains(c));
            }
        }
    }
    assert forall|p: Id| r.contains_key(p) implies r[p].nested.no_duplicates() by {
        if p == parent {
            if base.contains(nested) {
                assert(m[nested].parent is Some);
            }
            assert(base.no_duplicates());
            let s = base.insert(index, nested);
            assert(s.len() == base.len() + 1);
            assert forall|i: int| 0 <= i < s.len() && i != index implies #[trigger] s[i] == base[if i < index { i } else { i - 1 }] by {}
            assert forall|i: int, j: int| 0 <= i < s.len() && 0 <= j < s.len() && i != j implies s[i] != s[j] by {
                if i != index && j != index {
                    assert(s[i] == base[if i < index { i } else { i - 1 }]);
                    assert(s[j] == base[if j < index { j } else { j - 1 }]);
                } else if i == index {
                    assert(s[j] == base[if j < index { j } else { j - 1 }]);
                } else {
                    assert(s[i] == base[if i < index { i } else { i - 1 }]);
                }
            }
        }
    }
}

/// The nested list of `id` (empty when it does not exist).
pub open spec fn spec_nested<Id>(m: HierarchyView<Id>, id: Id) -> Seq<Id> {
    if m.contains_key(id) {
        m[id].nested
    } else {
        Seq::empty()
    }
}

/// The nodes sharing `id`'s parent, `id` included (empty for a root or a missing node).
pub open spec fn spec_group<Id>(m: HierarchyView<Id>, id: Id) -> Seq<Id> {
    if m.contains_key(id) && m[id].parent is Some {
        spec_nested(m, m[id].parent->0)
    } else {
        Seq::empty()
    }
}

/// `new` keeps a subset of `old`'s nodes, each with its state unchanged.
pub open spec fn is_submap<Id>(new: HierarchyView<Id>, old: HierarchyView<Id>) -> bool {
    forall|k: Id| #[trigger] new.contains_key(k) ==> old.contains_key(k) && new[k] == old[k]
}

/// Every node that went from `old` to `new` lies in `x`'s subtree (in `old`).
pub open spec fn removal_sound<Id>(old: HierarchyView<Id>, new: HierarchyView<Id>, x: Id) -> bool {
    forall|r: Id| old.contains_key(r) && !new.contains_key(r) ==> #[trigger] in_subtree(old, r, x)
}

/// Every removed node other than `x` had a parent that was removed too.
pub open spec fn removal_upward_closed<Id>(old: HierarchyView<Id>, new: HierarchyView<Id>, x: Id) -> bool {
    forall|r: Id|
        #![trigger old[r].parent]
        old.contains_key(r) && !new.contains_key(r) && r != x ==> old[r].parent is Some
            && old.contains_key(old[r].parent->0) && !new.contains_key(old[r].parent->0)
}

/// No remaining node has a parent that was removed.
pub open spec fn removal_closed<Id>(old: HierarchyView<Id>, new: HierarchyView<Id>) -> bool {
    forall|n: Id|
        #![trigger new[n].parent]
        new.contains_key(n) && new[n].parent is Some ==> !(old.contains_key(new[n].parent->0)
            && !new.contains_key(new[n].parent->0))
}

/// The links invariant, relaxed for a node `x` that has been taken out of its parent's nested
/// list but still names that parent.
pub open spec fn detached_links<Id>(m: HierarchyView<Id>, x: Id) -> bool {
    &&& m.contains_key(x)
    &&& forall|p: Id, c: Id|
        #![trigger m[p].nested.contains(c)]
        m.contains_key(p) && m[p].nested.contains(c) ==> m.contains_key(c) && m[c].parent == Some(p)
    &&& forall|c: Id|
        #![trigger m[c].parent]
        m.contains_key(c) && c != x && m[c].parent is Some && m.contains_key(m[c].parent->0)
            ==> m[m[c].parent->0].nested.contains(c)
    &&& forall|p: Id| #![trigger m[p].nested] m.contains_key(p) ==> m[p].nested.no_duplicates()
    &&& forall|p: Id| #![trigger m[p].nested] m.contains_key(p) ==> !m[p].nested.contains(x)
}

/// The hierarchy after `remove(id)` succeeded: `id` and its whole subtree are gone, and `id` is
/// taken out of its parent's nested list, the order of the others kept.
pub open spec fn spec_remove<Id>(m: HierarchyView<Id>, id: Id) -> HierarchyView<Id> {
    Map::new(
        |k: Id| m.contains_key(k) && !in_subtree(m, k, id),
        |k: Id|
            if m[id].parent == Some(k) {
                NodeView { parent: m[k].parent, nested: m[k].nested.remove(m[k].nested.index_of(id)) }
            } else {
                m[k]
            },
    )
}

pub proof fn lemma_ancestor_submap<Id>(small: HierarchyView<Id>, big: HierarchyView<Id>, r: Id, k: nat)
    requires
        is_submap(small, big),
        ancestor(small, r, k) is Some,
    ensures
        ancestor(big, r, k) == ancestor(small, r, k),
    decreases k,
{
    if k > 0 {
        match small[r].parent {
            Some(p) => lemma_ancestor_submap(small, big, p, (k - 1) as nat),
            None => {},
        }
    }
}

pub proof fn lemma_ancestor_step<Id>(m: HierarchyView<Id>, r: Id, k: nat, a: Id, b: Id)
    requires
        ancestor(m, r, k) == Some(a),
        m[a].parent == Some(b),
        m.contains_key(b),
    ensures
        ancestor(m, r, k + 1) == Some(b),
    decreases k,
{
    reveal_with_fuel(ancestor, 2);
    if k > 0 {
        let p = m[r].parent->0;
        lemma_ancestor_step(m, p, (k - 1) as nat, a, b);
    }
}

pub proof fn lemma_ancestor_same_parents<Id>(m1: HierarchyView<Id>, m2: HierarchyView<Id>, r: Id, k: nat)
    requires
        m1.dom() == m2.dom(),
        forall|n: Id| #[trigger] m1.contains_key(n) ==> m1[n].parent == m2[n].parent,
    ensures
        ancestor(m1, r, k) == ancestor(m2, r, k),
    decreases k,
{
    if k > 0 && m1.contains_key(r) {
        assert(m2.contains_key(r));
        match m1[r].parent {
            Some(p) => lemma_ancestor_same_parents(m1, m2, p, (k - 1) as nat),
            None => {},
        }
    }
}

/// A removal that leaves no node with a removed parent takes the whole subtree of its root.
pub proof fn lemma_closed_removal_complete<Id>(old: HierarchyView<Id>, new: HierarchyView<Id>, x: Id, r: Id, k: nat)
    requires
        is_submap(new, old),
        !new.contains_key(x),
        removal_closed(old, new),
        ancestor(old, r, k) == Some(x),
    ensures
        !new.contains_key(r),
    decreases k,
{
    if k > 0 {
        let q = old[r].parent->0;
        lemma_closed_removal_complete(old, new, x, q, (k - 1) as nat);
        if new.contains_key(r) {
            assert(new[r].parent == old[r].parent);
        }
    }
}

/// The first position of `id` in `list`.
fn position<Id: NodeKey>(list: &Vec<Id>, id: &Id) -> (r: Option<usize>)
    ensures
        match r {
            Some(i) => i < list@.len() && list@[i as int] == *id && forall|j: int| 0 <= j < i ==> list@[j] != *id,
            None => !list@.contains(*id),
        },
{
    let mut i: usize = 0;
    while i < list.len()
        invariant
            i <= list@.len(),
            forall|j: int| 0 <= j < i ==> list@[j] != *id,
        decreases list@.len() - i,
    {
        if list[i].same(id) {
            return Some(i);
        }
        i += 1;
    }
    None
}

/// Adding `nested` one after the other under `parent`, stopping at the first refusal: the final
/// hierarchy, and whether all were added.
pub open spec fn spec_add_all<Id>(m: HierarchyView<Id>, parent: Id, nested: Seq<Id>) -> (HierarchyView<Id>, bool)
    decreases nested.len(),
{
    if nested.len() == 0 {
        (m, true)
    } else if add_refused(m, nested[0]) {
        (m, false)
    } else {
        spec_add_all(spec_add(m, parent, nested[0]), parent, nested.drop_first())
    }
}

/// Which way `neighbor` looks first.
#[derive(Debug, Clone, Copy, PartialEq, Eq, Structural)]
pub enum DirectionBias {
    Begin,
    End,
}

/// The neighbor of the item at `index` in `group`: the one on the `bias` side, or the one on
/// the other side at either end of the group.
pub open spec fn spec_neighbor<Id>(group: Seq<Id>, index: int, bias: DirectionBias) -> Option<Id> {
    if index == 0 {
        if group.len() > 1 {
            Some(group[1])
        } else {
            None
        }
    } else if index == group.len() - 1 {
        Some(group[index - 1])
    } else {
        match bias {
            DirectionBias::Begin => Some(group[index - 1]),
            DirectionBias::End => Some(group[index + 1]),
        }
    }
}

/// The neighbor found for `id` within its group (see `spec_neighbor`); none when `id` has no
/// group.
pub open spec fn neighbor_of<Id>(m: HierarchyView<Id>, id: Id, bias: DirectionBias) -> Option<Id> {
    let g = spec_group(m, id);
    if g.len() == 0 {
        None
    } else {
        spec_neighbor(g, g.index_of(id), bias)
    }
}

/// A node of a hierarchy, addressed for queries.
#[verifier::reject_recursive_types(Id)]
pub struct Entry<'a, Id> {
    hierarchy: &'a OrderedHierarchy<Id>,
    id: &'a Id,
}

/// Removing a node right after it was added as a new leaf under an existing parent gives back
/// the hierarchy as it was.
pub proof fn law_remove_undoes_add<Id>(m: HierarchyView<Id>, parent: Id, nested: Id)
    requires
        links_consistent(m),
        m.contains_key(parent),
        !m.contains_key(nested),
    ensures
        spec_remove(spec_add(m, parent, nested), nested) == m,
{
    let a = spec_add(m, parent, nested);
    assert(parent != nested);
    assert(a[nested].parent == Some(parent));
    assert(a[nested].nested.len() == 0);
    assert(!m[parent].nested.contains(nested));
    let s = a[parent].nested;
    assert(s == m[parent].nested.push(nested));
    assert forall|k: Id| a.contains_key(k) && k != nested implies !in_subtree(a, k, nested) by {
        if in_subtree(a, k, nested) {
            let kk = choose|kk: nat| ancestor(a, k, kk) == Some(nested);
            if kk > 0 {
                assert(m.contains_key(k));
                assert(a[k] == m[k] || k == parent);
                assert(a[k].parent == m[k].parent);
                match m[k].parent {
                    Some(q) => {
                        assert(m.contains_key(q));
                        assert(ancestor(a, q, (kk - 1) as nat) == Some(nested));
                        lemma_not_below_new_leaf(m, a, nested, q, (kk - 1) as nat);
                    },
                    None => {},
                }
            }
        }
    }
    assert(ancestor(a, nested, 0) == Some(nested));
    let i = s.index_of(nested);
    assert(s[s.len() - 1] == nested);
    assert(i == s.len() - 1) by {
        if i != s.len() - 1 {
            assert(m[parent].nested[i] == nested);
        }
    }
    assert(s.remove(i) =~= m[parent].nested);
    assert(spec_remove(a, nested) =~= m);
}

proof fn lemma_not_below_new_leaf<Id>(m: HierarchyView<Id>, a: HierarchyView<Id>, nested: Id, q: Id, k: nat)
    requires
        links_consistent(m),
        !m.contains_key(nested),
        m.contains_key(q),
        forall|n: Id| #[trigger] m.contains_key(n) ==> a.contains_key(n) && a[n].parent == m[n].parent,
    ensures
        ancestor(a, q, k) != Some(nested),
    decreases k,
{
    if k > 0 {
        match m[q].parent {
            Some(p) => {
                assert(m.contains_key(p));
                lemma_not_below_new_leaf(m, a, nested, p, (k - 1) as nat);
            },
            None => {},
        }
    }
}

/// A node that has a parent is part of its own group.
pub proof fn law_group_contains_self<Id>(m: HierarchyView<Id>, id: Id)
    requires
        links_consistent(m),
        m.contains_key(id),
        m[id].parent is Some,
    ensures
        spec_group(m, id).contains(id),
{
}

#[derive(Debug)]
struct NodeState<Id> {
    id: Id,
    parent: Option<Id>,
    nested: Vec<Id>,
}

impl<Id> NodeState<Id> {
    spec fn view_node(&self) -> NodeView<Id> {
        NodeView { parent: self.parent, nested: self.nested@ }
    }
}

/// A representation of an ordered hierarchy.
///
/// The hierarchy keeps one entry per node, so existence checks are answered directly from a
/// single source of truth.
#[verifier::reject_recursive_types(Id)]
pub struct OrderedHierarchy<Id> {
    nodes: Vec<NodeState<Id>>,
    model: Ghost<HierarchyView<Id>>,
}

impl<Id: NodeKey> Default for OrderedHierarchy<Id> {
    fn default() -> (h: Self)
        ensures
            h.wf(),
            h@ == Map::<Id, NodeView<Id>>::empty(),
    {
        OrderedHierarchy::new()
    }
}

impl<Id> View for OrderedHierarchy<Id> {
    type V = HierarchyView<Id>;

    closed spec fn view(&self) -> HierarchyView<Id> {
        self.model@
    }
}

impl<Id: NodeKey> OrderedHierarchy<Id> {
    spec fn storage_wf(&self) -> bool {
        &&& forall|i: int, j: int|
            0 <= i < self.nodes@.len() && 0 <= j < self.nodes@.len() && i != j
                ==> #[trigger] self.nodes@[i].id != #[trigger] self.nodes@[j].id
        &&& forall|i: int|
            0 <= i < self.nodes@.len() ==> self.model@.contains_key(#[trigger] self.nodes@[i].id)
                && self.model@[self.nodes@[i].id] == self.nodes@[i].view_node()
        &&& forall|k: Id|
            #[trigger] self.model@.contains_key(k) ==> exists|i: int|
                0 <= i < self.nodes@.len() && #[trigger] self.nodes@[i].id == k
    }

    /// The hierarchy's internal invariant.
    pub closed spec fn wf(&self) -> bool {
        &&& self.storage_wf()
        &&& links_consistent(self@)
    }

    /// An empty hierarchy.
    pub fn new() -> (h: Self)
        ensures
            h.wf(),
            h@ == Map::<Id, NodeView<Id>>::empty(),
    {
        OrderedHierarchy { nodes: Vec::new(), model: Ghost(Map::empty()) }
    }

    fn find(&self, id: &Id) -> (r: Option<usize>)
        requires
            self.storage_wf(),
        ensures
            match r {
                Some(i) => i < self.nodes@.len() && self.nodes@[i as int].id == *id
                    && self@.contains_key(*id),
                None => !self@.contains_key(*id),
            },
    {
        let mut i: usize = 0;
        while i < self.nodes.len()
            invariant
                self.storage_wf(),
                i <= self.nodes@.len(),
                forall|j: int| 0 <= j < i ==> self.nodes@[j].id != *id,
            decreases self.nodes@.len() - i,
        {
            if self.nodes[i].id.same(id) {
                return Some(i);
            }
            i += 1;
        }
        None
    }

    proof fn lemma_same_ids_storage(&self, prev: &Self, i: int)
        requires
            prev.storage_wf(),
            0 <= i < prev.nodes@.len(),
            self.nodes@.len() == prev.nodes@.len(),
            forall|j: int| 0 <= j < self.nodes@.len() && j != i ==> self.nodes@[j] == prev.nodes@[j],
            self.nodes@[i].id == prev.nodes@[i].id,
            self.model@ == prev.model@.insert(prev.nodes@[i].id, self.nodes@[i].view_node()),
        ensures
            self.storage_wf(),
    {
        assert forall|j: int| 0 <= j < self.nodes@.len() implies #[trigger] self.nodes@[j].id
            == prev.nodes@[j].id by {
            if j != i {
                assert(self.nodes@[j] == prev.nodes@[j]);
            }
        }
        assert forall|k: Id| #[trigger] self.model@.contains_key(k) implies exists|j: int|
            0 <= j < self.nodes@.len() && #[trigger] self.nodes@[j].id == k by {
            if k == prev.nodes@[i].id {
                assert(self.nodes@[i].id == k);
            } else {
                assert(prev.model@.contains_key(k));
                let j = choose|j: int| 0 <= j < prev.nodes@.len() && #[trigger] prev.nodes@[j].id == k;
                assert(self.nodes@[j].id == k);
            }
        }
    }

    fn set_parent(&mut self, i: usize, parent: Option<Id>)
        requires
            old(self).storage_wf(),
            i < old(self).nodes@.len(),
        ensures
            final(self).storage_wf(),
            final(self)@ == old(self)@.insert(
                old(self).nodes@[i as int].id,
                NodeView { parent, nested: old(self).nodes@[i as int].nested@ },
            ),
            final(self).nodes@.len() == old(self).nodes@.len(),
            forall|k: int| 0 <= k < final(self).nodes@.len() ==> #[trigger] final(self).nodes@[k].id == old(self).nodes@[k].id,
    {
        let ghost id = self.nodes@[i as int].id;
        self.nodes[i].parent = parent;
        proof {
            self.model@ = self.model@.insert(id, self.nodes@[i as int].view_node());
            self.lemma_same_ids_storage(&*old(self), i as int);
        }
    }

    fn push_nested(&mut self, i: usize, nested: Id)
        requires
            old(self).storage_wf(),
            i < old(self).nodes@.len(),
        ensures
            final(self).storage_wf(),
            final(self)@ == old(self)@.insert(
                old(self).nodes@[i as int].id,
                NodeView {
                    parent: old(self).nodes@[i as int].parent,
                    nested: old(self).nodes@[i as int].nested@.push(nested),
                },
            ),
            final(self).nodes@.len() == old(self).nodes@.len(),
            forall|k: int| 0 <= k < final(self).nodes@.len() ==> #[trigger] final(self).nodes@[k].id == old(self).nodes@[k].id,
    {
        let ghost id = self.nodes@[i as int].id;
        self.nodes[i].nested.push(nested);
        proof {
            self.model@ = self.model@.insert(id, self.nodes@[i as int].view_node());
            self.lemma_same_ids_storage(&*old(self), i as int);
        }
    }

    fn push_node(&mut self, node: NodeState<Id>)
        requires
            old(self).storage_wf(),
            !old(self)@.contains_key(node.id),
        ensures
            final(self).storage_wf(),
            final(self)@ == old(self)@.insert(node.id, node.view_node()),
            final(self).nodes@ == old(self).nodes@.push(node),
    {
        let ghost v = node.view_node();
        let ghost id = node.id;
        self.nodes.push(node);
        proof {
            self.model@ = self.model@.insert(id, v);
            assert forall|k: Id| #[trigger] self.model@.contains_key(k) implies exists|i: int|
                0 <= i < self.nodes@.len() && #[trigger] self.nodes@[i].id == k by {
                if k == id {
                    assert(self.nodes@[self.nodes@.len() - 1].id == k);
                } else {
                    assert(old(self).model@.contains_key(k));
                    let i = choose|i: int| 0 <= i < old(self).nodes@.len() && #[trigger] old(self).nodes@[i].id == k;
                    assert(self.nodes@[i].id == k);
                }
            }
        }
    }

    /// Add `nested` to the end of `parent`'s nested list.
    ///
    /// Refused when `nested` has a parent already; missing nodes are created.
    pub fn add(&mut self, parent: Id, nested: Id) -> (r: Result<(), HierarchyError>)
        requires
            old(self).wf(),
        ensures
            final(self).wf(),
            r is Err <==> add_refused(old(self)@, nested),
            r is Err ==> r == Err::<(), HierarchyError>(HierarchyError::AlreadyNested)
                && final(self)@ == old(self)@,
            r is Ok ==> final(self)@ == spec_add(old(self)@, parent, nested),
    {
        let ghost m = self@;
        match self.find(&nested) {
            Some(i) => {
                if self.nodes[i].parent.is_some() {
                    return Err(HierarchyError::AlreadyNested);
                }
                self.set_parent(i, Some(parent));
            },
            None => {
                self.push_node(NodeState { id: nested, parent: Some(parent), nested: Vec::new() });
            },
        }
        let ghost m1 = self@;
        match self.find(&parent) {
            Some(j) => {
                self.push_nested(j, nested);
            },
            None => {
                let mut list = Vec::new();
                list.push(nested);
                self.push_node(NodeState { id: parent, parent: None, nested: list });
            },
        }
        proof {
            lemma_add_preserves_links(m, parent, nested);
            assert(self@ =~= spec_add(m, parent, nested));
        }
        Ok(())
    }

    fn insert_nested(&mut self, i: usize, index: usize, nested: Id)
        requires
            old(self).storage_wf(),
            i < old(self).nodes@.len(),
            index <= old(self).nodes@[i as int].nested@.len(),
        ensures
            final(self).storage_wf(),
            final(self)@ == old(self)@.insert(
                old(self).nodes@[i as int].id,
                NodeView {
                    parent: old(self).nodes@[i as int].parent,
                    nested: old(self).nodes@[i as int].nested@.insert(index as int, nested),
                },
            ),
            final(self).nodes@.len() == old(self).nodes@.len(),
            forall|k: int| 0 <= k < final(self).nodes@.len() ==> #[trigger] final(self).nodes@[k].id == old(self).nodes@[k].id,
    {
        let ghost id = self.nodes@[i as int].id;
        self.nodes[i].nested.insert(index, nested);
        proof {
            self.model@ = self.model@.insert(id, self.nodes@[i as int].view_node());
            self.lemma_same_ids_storage(&*old(self), i as int);
        }
    }

    /// Insert `nested` at `index` into `parent`'s nested list.
    ///
    /// `parent` is created first when it is missing, also when the insertion is then refused.
    /// Refused when `index` lies beyond the end of the list, or when `nested` has a parent
    /// already.
    pub fn insert_at(&mut self, parent: Id, index: usize, nested: Id) -> (r: Result<(), HierarchyError>)
        requires
            old(self).wf(),
        ensures
            final(self).wf(),
            index > nested_len(old(self)@, parent) ==> r == Err::<(), HierarchyError>(
                HierarchyError::IndexOutOfBounds { index, len: nested_len(old(self)@, parent) as usize },
            ) && final(self)@ == with_node(old(self)@, parent),
            index <= nested_len(old(self)@, parent) && add_refused(with_node(old(self)@, parent), nested)
                ==> r == Err::<(), HierarchyError>(HierarchyError::AlreadyNested)
                && final(self)@ == with_node(old(self)@, parent),
            index <= nested_len(old(self)@, parent) && !add_refused(with_node(old(self)@, parent), nested)
                ==> r is Ok && final(self)@ == spec_insert_at(old(self)@, parent, index as int, nested),
    {
        let ghost m = self@;
        let j = match self.find(&parent) {
            Some(j) => j,
            None => {
                self.push_node(NodeState { id: parent, parent: None, nested: Vec::new() });
                self.nodes.len() - 1
            },
        };
        proof {
            lemma_with_node_preserves_links(m, parent);
            assert(self@ =~= with_node(m, parent));
        }
        let ghost m0 = self@;
        let len = self.nodes[j].nested.len();
        proof {
            assert(self.nodes@[j as int].id == parent);
            assert(len == nested_len(m, parent));
        }
        if index > len {
            return Err(HierarchyError::IndexOutOfBounds { index, len });
        }
        match self.find(&nested) {
            Some(i) => {
                if self.nodes[i].parent.is_some() {
                    return Err(HierarchyError::AlreadyNested);
                }
                self.set_parent(i, Some(parent));
            },
            None => {
                self.push_node(NodeState { id: nested, parent: Some(parent), nested: Vec::new() });
            },
        }
        proof {
            assert(self.nodes@[j as int].id == parent);
        }
        self.insert_nested(j, index, nested);
        proof {
            lemma_insert_at_preserves_links(m0, parent, index as int, nested);
            assert(self@ =~= spec_insert_at(m, parent, index as int, nested));
        }
        Ok(())
    }

    fn take_node(&mut self, i: usize) -> (node: NodeState<Id>)
        requires
            old(self).storage_wf(),
            i < old(self).nodes@.len(),
        ensures
            final(self).storage_wf(),
            node == old(self).nodes@[i as int],
            final(self)@ == old(self)@.remove(node.id),
            final(self).nodes@.len() == old(self).nodes@.len() - 1,
    {
        let ghost prev = self.nodes@;
        let node = self.nodes.swap_remove(i);
        proof {
            let last = prev.len() - 1;
            self.model@ = self.model@.remove(node.id);
            assert forall|j: int| 0 <= j < self.nodes@.len() implies #[trigger] self.nodes@[j] == prev[if j == i { last } else { j }] by {}
            assert forall|a: int, b: int|
                0 <= a < self.nodes@.len() && 0 <= b < self.nodes@.len() && a != b
                    implies #[trigger] self.nodes@[a].id != #[trigger] self.nodes@[b].id by {
                assert(self.nodes@[a] == prev[if a == i { last } else { a }]);
                assert(self.nodes@[b] == prev[if b == i { last } else { b }]);
            }
            assert forall|j: int| 0 <= j < self.nodes@.len() implies self.model@.contains_key(#[trigger] self.nodes@[j].id)
                && self.model@[self.nodes@[j].id] == self.nodes@[j].view_node() by {
                let oj = if j == i { last } else { j };
                assert(self.nodes@[j] == prev[oj]);
                assert(prev[oj].id != prev[i as int].id);
            }
            assert forall|k: Id| #[trigger] self.model@.contains_key(k) implies exists|j: int|
                0 <= j < self.nodes@.len() && #[trigger] self.nodes@[j].id == k by {
                let oj = choose|oj: int| 0 <= oj < prev.len() && #[trigger] prev[oj].id == k;
                assert(oj != i);
                if oj == last {
                    assert(self.nodes@[i as int].id == k);
                } else {
                    assert(self.nodes@[oj].id == k);
                }
            }
        }
        node
    }

    fn remove_nested_entry(&mut self, i: usize, pos: usize)
        requires
            old(self).storage_wf(),
            i < old(self).nodes@.len(),
            pos < old(self).nodes@[i as int].nested@.len(),
        ensures
            final(self).storage_wf(),
            final(self)@ == old(self)@.insert(
                old(self).nodes@[i as int].id,
                NodeView {
                    parent: old(self).nodes@[i as int].parent,
                    nested: old(self).nodes@[i as int].nested@.remove(pos as int),
                },
            ),
            final(self).nodes@.len() == old(self).nodes@.len(),
    {
        let ghost id = self.nodes@[i as int].id;
        self.nodes[i].nested.remove(pos);
        proof {
            self.model@ = self.model@.insert(id, self.nodes@[i as int].view_node());
            self.lemma_same_ids_storage(&*old(self), i as int);
        }
    }

    fn remove_nested_with_expected_parent(&mut self, id: &Id, expected_parent: Option<&Id>) -> (r: Result<(), HierarchyError>)
        requires
            old(self).storage_wf(),
            detached_links(old(self)@, *id),
            match expected_parent {
                Some(p) => old(self)@[*id].parent == Some(*p),
                None => old(self)@[*id].parent is None,
            },
        ensures
            r is Ok,
            final(self).storage_wf(),
            final(self).nodes@.len() < old(self).nodes@.len(),
            is_submap(final(self)@, old(self)@),
            !final(self)@.contains_key(*id),
            removal_sound(old(self)@, final(self)@, *id),
            removal_upward_closed(old(self)@, final(self)@, *id),
            removal_closed(old(self)@, final(self)@),
        decreases old(self).nodes@.len(),
    {
        let ghost m = self@;
        let ghost x = *id;
        let i = match self.find(id) {
            Some(i) => i,
            None => return Ok(()),
        };
        let node = self.take_node(i);
        let ghost mx = self@;
        let ghost children = node.nested@;
        proof {
            assert(children == m[x].nested);
            assert(mx == m.remove(x));
            assert(ancestor(m, x, 0) == Some(x));
        }
        let mut k: usize = 0;
        while k < node.nested.len()
            invariant
                self.storage_wf(),
                self.nodes@.len() < old(self).nodes@.len(),
                m == old(self)@,
                x == *id,
                mx == m.remove(x),
                detached_links(m, x),
                children == node.nested@,
                children == m[x].nested,
                k <= children.len(),
                is_submap(self@, mx),
                forall|r: Id| m.contains_key(r) && !self@.contains_key(r) && r != x ==>
                    exists|j: int| 0 <= j < k && #[trigger] in_subtree(mx, r, children[j]),
                removal_upward_closed(m, self@, x),
                forall|n: Id|
                    #![trigger self@[n].parent]
                    self@.contains_key(n) && self@[n].parent is Some && m.contains_key(self@[n].parent->0)
                        && !self@.contains_key(self@[n].parent->0) ==> self@[n].parent->0 == x
                        && exists|j: int| k <= j < children.len() && children[j] == n,
            decreases children.len() - k,
        {
            let c = node.nested[k];
            let ghost cur = self@;
            proof {
                assert(m[x].nested.contains(c));
                assert(m.contains_key(c) && m[c].parent == Some(x));
                assert(c != x);
                if !cur.contains_key(c) {
                    let j = choose|j: int| 0 <= j < k && #[trigger] in_subtree(mx, c, children[j]);
                    let kk = choose|kk: nat| ancestor(mx, c, kk) == Some(children[j]);
                    assert(mx.contains_key(c) && mx[c] == m[c]);
                    if kk == 0 {
                        assert(children[j] == c && children[k as int] == c);
                        assert(m[x].nested.no_duplicates());
                        assert(children[j] != children[k as int]);
                    } else {
                        assert(mx[c].parent == Some(x));
                        assert(!mx.contains_key(x));
                        assert(ancestor(mx, x, (kk - 1) as nat) is None);
                    }
                }
                assert(cur.contains_key(c));
                // The links hold in `cur` with `c` detached.
                assert forall|p: Id, d: Id| cur.contains_key(p) && cur[p].nested.contains(d) implies
                    cur.contains_key(d) && cur[d].parent == Some(p) by {
                    assert(cur[p] == m[p]);
                    assert(m[p].nested.contains(d));
                    if !cur.contains_key(d) {
                        if d == x {
                        } else {
                            assert(m[d].parent == Some(p));
                        }
                    }
                }
                assert forall|d: Id| cur.contains_key(d) && d != c && cur[d].parent is Some
                    && cur.contains_key(cur[d].parent->0) implies cur[cur[d].parent->0].nested.contains(d) by {
                    assert(cur[d] == m[d]);
                    assert(cur[cur[d].parent->0] == m[cur[d].parent->0]);
                }
                assert forall|p: Id| cur.contains_key(p) implies cur[p].nested.no_duplicates() by {
                    assert(cur[p] == m[p]);
                }
                assert forall|p: Id| cur.contains_key(p) implies !cur[p].nested.contains(c) by {
                    assert(cur[p] == m[p]);
                    if m[p].nested.contains(c) {
                        assert(m[c].parent == Some(p));
                    }
                }
                assert(detached_links(cur, c));
                assert(cur[c].parent == Some(x));
            }
            let ghost parent_of_c = x;
            let _ = self.remove_nested_with_expected_parent(&node.nested[k], Some(id));
            proof {
                let now = self@;
                assert forall|key: Id| #[trigger] now.contains_key(key) implies mx.contains_key(key)
                    && now[key] == mx[key] by {
                    assert(cur.contains_key(key) && now[key] == cur[key]);
                }
                assert forall|r: Id| m.contains_key(r) && !now.contains_key(r) && r != x implies
                    exists|j: int| 0 <= j < k + 1 && #[trigger] in_subtree(mx, r, children[j]) by {
                    if cur.contains_key(r) {
                        assert(in_subtree(cur, r, c));
                        let kk = choose|kk: nat| ancestor(cur, r, kk) == Some(c);
                        lemma_ancestor_submap(cur, mx, r, kk);
                        assert(in_subtree(mx, r, children[k as int]));
                    } else {
                        let j = choose|j: int| 0 <= j < k && #[trigger] in_subtree(mx, r, children[j]);
                        assert(in_subtree(mx, r, children[j]));
                    }
                }
                assert forall|r: Id|
                    #![trigger m[r].parent]
                    m.contains_key(r) && !now.contains_key(r) && r != x implies m[r].parent is Some
                        && m.contains_key(m[r].parent->0) && !now.contains_key(m[r].parent->0) by {
                    if cur.contains_key(r) {
                        assert(cur[r] == m[r]);
                        if r == c {
                        } else {
                            assert(cur[r].parent is Some);
                        }
                    }
                }
                assert forall|n: Id|
                    #![trigger now[n].parent]
                    now.contains_key(n) && now[n].parent is Some && m.contains_key(now[n].parent->0)
                        && !now.contains_key(now[n].parent->0) implies now[n].parent->0 == x
                        && exists|j: int| k + 1 <= j < children.len() && children[j] == n by {
                    assert(now[n] == cur[n]);
                    let q = now[n].parent->0;
                    if cur.contains_key(q) {
                        assert(cur[n].parent is Some);
                    } else {
                        let j = choose|j: int| k <= j < children.len() && children[j] == n;
                        assert(j != k);
                    }
                }
            }
            k += 1;
        }
        proof {
            let fin = self@;
            assert forall|key: Id| #[trigger] fin.contains_key(key) implies m.contains_key(key)
                && fin[key] == m[key] by {
                assert(mx.contains_key(key));
            }
            assert forall|r: Id| m.contains_key(r) && !fin.contains_key(r) implies #[trigger] in_subtree(m, r, x) by {
                if r != x {
                    let j = choose|j: int| 0 <= j < k && #[trigger] in_subtree(mx, r, children[j]);
                    let kk = choose|kk: nat| ancestor(mx, r, kk) == Some(children[j]);
                    lemma_ancestor_submap(mx, m, r, kk);
                    assert(m[x].nested.contains(children[j]));
                    lemma_ancestor_step(m, r, kk, children[j], x);
                } else {
                    assert(ancestor(m, r, 0) == Some(x));
                }
            }
        }
        Ok(())
    }

    /// Remove `id` together with its whole nested subtree, and take it out of its parent's
    /// nested list.
    pub fn remove(&mut self, id: &Id) -> (r: Result<(), HierarchyError>)
        requires
            old(self).wf(),
        ensures
            final(self).wf(),
            r is Err <==> !old(self)@.contains_key(*id),
            r is Err ==> r == Err::<(), HierarchyError>(HierarchyError::NotFound) && final(self)@ == old(self)@,
            r is Ok ==> final(self)@ == spec_remove(old(self)@, *id),
    {
        let ghost m = self@;
        let i = match self.find(id) {
            Some(i) => i,
            None => return Err(HierarchyError::NotFound),
        };
        let parent = self.nodes[i].parent;
        if let Some(p) = parent {
            proof {
                assert(m[*id].parent == Some(p));
                assert(m.contains_key(p) && m[p].nested.contains(*id));
            }
            let j = match self.find(&p) {
                Some(j) => j,
                None => return Err(HierarchyError::NotFound),
            };
            let pos = match position(&self.nodes[j].nested, id) {
                Some(pos) => pos,
                None => return Err(HierarchyError::NotFound),
            };
            self.remove_nested_entry(j, pos);
            proof {
                let s = m[p].nested;
                assert(s == self.nodes@[j as int].nested@ || true);
                let ip = s.index_of(*id);
                assert(s.no_duplicates());
                assert(s[ip] == *id);
                assert(ip == pos as int);
                s.remove_ensures(ip);
                assert(self@[p].nested == s.remove(ip));
                assert forall|c: Id| s.remove(ip).contains(c) implies s.contains(c) && c != *id by {
                    let ci = choose|ci: int| 0 <= ci < s.len() - 1 && s.remove(ip)[ci] == c;
                    if ci < ip {
                        assert(s[ci] == c);
                    } else {
                        assert(s[ci + 1] == c);
                    }
                }
                assert forall|c: Id| s.contains(c) && c != *id implies s.remove(ip).contains(c) by {
                    let ci = choose|ci: int| 0 <= ci < s.len() && s[ci] == c;
                    if ci < ip {
                        assert(s.remove(ip)[ci] == c);
                    } else {
                        assert(ci != ip);
                        assert(s.remove(ip)[ci - 1] == c);
                    }
                }
                assert(s.remove(ip).no_duplicates()) by {
                    let t = s.remove(ip);
                    assert forall|a: int, b: int| 0 <= a < t.len() && 0 <= b < t.len() && a != b implies t[a] != t[b] by {
                        let oa = if a < ip { a } else { a + 1 };
                        let ob = if b < ip { b } else { b + 1 };
                        assert(t[a] == s[oa] && t[b] == s[ob]);
                    }
                }
            }
        }
        let ghost md = self@;
        proof {
            assert(md.dom() =~= m.dom());
            assert forall|n: Id| #[trigger] md.contains_key(n) implies md[n].parent == m[n].parent by {}
            assert forall|q: Id| #[trigger] md.contains_key(q) implies !md[q].nested.contains(*id) by {
                if parent is Some && q == parent->0 {
                } else if md[q].nested.contains(*id) {
                    assert(m[q].nested.contains(*id));
                }
            }
            assert forall|q: Id, c: Id| md.contains_key(q) && md[q].nested.contains(c) implies
                md.contains_key(c) && md[c].parent == Some(q) by {
                if parent is Some && q == parent->0 {
                    assert(m[q].nested.contains(c));
                } else {
                    assert(md[q] == m[q]);
                }
            }
            assert forall|c: Id| md.contains_key(c) && c != *id && md[c].parent is Some
                && md.contains_key(md[c].parent->0) implies md[md[c].parent->0].nested.contains(c) by {
                let q = md[c].parent->0;
                assert(m[c].parent == Some(q));
                assert(m[q].nested.contains(c));
                if parent is Some && q == parent->0 {
                } else {
                    assert(md[q] == m[q]);
                }
            }
            assert forall|q: Id| md.contains_key(q) implies md[q].nested.no_duplicates() by {
                if parent is Some && q == parent->0 {
                } else {
                    assert(md[q] == m[q]);
                }
            }
            assert(detached_links(md, *id));
        }
        let _ = self.remove_nested_with_expected_parent(id, parent.as_ref());
        proof {
            let fin = self@;
            assert forall|k: Id| fin.contains_key(k) <==> m.contains_key(k) && !in_subtree(m, k, *id) by {
                if m.contains_key(k) && in_subtree(m, k, *id) {
                    let kk = choose|kk: nat| ancestor(m, k, kk) == Some(*id);
                    lemma_ancestor_same_parents(m, md, k, kk);
                    lemma_closed_removal_complete(md, fin, *id, k, kk);
                }
                if m.contains_key(k) && !fin.contains_key(k) {
                    assert(in_subtree(md, k, *id));
                    let kk = choose|kk: nat| ancestor(md, k, kk) == Some(*id);
                    lemma_ancestor_same_parents(m, md, k, kk);
                }
            }
            assert(fin =~= spec_remove(m, *id));
            assert forall|p: Id, c: Id| fin.contains_key(p) && fin[p].nested.contains(c) implies
                fin.contains_key(c) && fin[c].parent == Some(p) by {
                assert(md[p].nested.contains(c));
            }
            assert forall|c: Id| fin.contains_key(c) && fin[c].parent is Some implies
                fin.contains_key(fin[c].parent->0) && fin[fin[c].parent->0].nested.contains(c) by {
                let q = fin[c].parent->0;
                assert(m.contains_key(q));
                assert(c != *id);
            }
            assert forall|p: Id| fin.contains_key(p) implies fin[p].nested.no_duplicates() by {}
        }
        Ok(())
    }

    /// Add the ids of `nested` one after the other to the end of the parent's nested list.
    ///
    /// Stops at the first id that is refused; the ids before it stay added.
    pub fn add_nested(&mut self, parent: Id, nested: Vec<Id>) -> (r: Result<(), HierarchyError>)
        requires
            old(self).wf(),
        ensures
            final(self).wf(),
            final(self)@ == spec_add_all(old(self)@, parent, nested@).0,
            r is Ok <==> spec_add_all(old(self)@, parent, nested@).1,
            r is Err ==> r == Err::<(), HierarchyError>(HierarchyError::AlreadyNested),
    {
        let ghost goal = spec_add_all(self@, parent, nested@);
        proof {
            assert(nested@.skip(0) =~= nested@);
        }
        let mut i: usize = 0;
        while i < nested.len()
            invariant
                self.wf(),
                i <= nested@.len(),
                spec_add_all(self@, parent, nested@.skip(i as int)) == goal,
                goal == spec_add_all(old(self)@, parent, nested@),
            decreases nested@.len() - i,
        {
            let ghost rest = nested@.skip(i as int);
            proof {
                assert(rest[0] == nested@[i as int]);
                assert(rest.drop_first() =~= nested@.skip(i + 1));
            }
            let ghost before = self@;
            let r = self.add(parent, nested[i]);
            if r.is_err() {
                proof {
                    assert(spec_add_all(before, parent, rest) == (before, false));
                }
                return r;
            }
            proof {
                assert(spec_add_all(before, parent, rest) == spec_add_all(self@, parent, rest.drop_first()));
            }
            i += 1;
        }
        proof {
            assert(nested@.skip(i as int).len() == 0);
            assert(spec_add_all(self@, parent, nested@.skip(i as int)) == (self@, true));
        }
        Ok(())
    }

    /// Address the node `id` for queries.
    pub fn entry<'a>(&'a self, id: &'a Id) -> (e: Entry<'a, Id>)
        requires
            self.wf(),
        ensures
            e.wf(),
            e.hierarchy_view() == self@,
            e.key() == *id,
    {
        Entry { hierarchy: self, id }
    }

    /// Every nested link of a well-formed hierarchy is mirrored by a parent link, and each node
    /// is listed exactly once by its parent.
    pub proof fn lemma_links(&self)
        requires
            self.wf(),
        ensures
            links_consistent(self@),
    {
    }

    /// Check whether a node exists in the hierarchy.
    pub fn contains(&self, id: &Id) -> (r: bool)
        requires
            self.wf(),
        ensures
            r == self@.contains_key(*id),
    {
        self.find(id).is_some()
    }

    pub fn get_nested(&self, id: &Id) -> (r: &[Id])
        requires
            self.wf(),
        ensures
            r@ == spec_nested(self@, *id),
    {
        match self.find(id) {
            Some(i) => self.nodes[i].nested.as_slice(),
            None => &[],
        }
    }

    /// Return all items that share the same parent as `id`.
    ///
    /// The returned slice includes `id` itself when `id` is non-root.
    pub fn group(&self, id: &Id) -> (r: &[Id])
        requires
            self.wf(),
        ensures
            r@ == spec_group(self@, *id),
    {
        match self.parent(id) {
            Some(parent) => self.get_nested(parent),
            None => &[],
        }
    }

    pub fn parent(&self, id: &Id) -> (r: Option<&Id>)
        requires
            self.wf(),
        ensures
            match r {
                Some(p) => self@.contains_key(*id) && self@[*id].parent == Some(*p),
                None => !self@.contains_key(*id) || self@[*id].parent is None,
            },
    {
        match self.find(id) {
            Some(i) => self.nodes[i].parent.as_ref(),
            None => None,
        }
    }
}

} // verus!

verus! {

impl<'a, Id: NodeKey> Entry<'a, Id> {
    pub closed spec fn wf(&self) -> bool {
        self.hierarchy.wf()
    }

    /// The hierarchy the entry reads.
    pub closed spec fn hierarchy_view(&self) -> HierarchyView<Id> {
        self.hierarchy@
    }

    /// The node the entry addresses.
    pub closed spec fn key(&self) -> Id {
        *self.id
    }

    pub fn parent(&self) -> (r: Option<&Id>)
        requires
            self.wf(),
        ensures
            match r {
                Some(p) => self.hierarchy_view().contains_key(self.key())
                    && self.hierarchy_view()[self.key()].parent == Some(*p),
                None => !self.hierarchy_view().contains_key(self.key())
                    || self.hierarchy_view()[self.key()].parent is None,
            },
    {
        self.hierarchy.parent(self.id)
    }

    pub fn has_nested(&self) -> (r: bool)
        requires
            self.wf(),
        ensures
            r == (spec_nested(self.hierarchy_view(), self.key()).len() > 0),
    {
        !self.hierarchy.get_nested(self.id).is_empty()
    }

    pub fn nested(&self) -> (r: &[Id])
        requires
            self.wf(),
        ensures
            r@ == spec_nested(self.hierarchy_view(), self.key()),
    {
        self.hierarchy.get_nested(self.id)
    }

    /// The position of the node in its parent's nested list.
    pub fn index(&self) -> (r: Option<usize>)
        requires
            self.wf(),
        ensures
            match r {
                Some(i) => i < spec_group(self.hierarchy_view(), self.key()).len()
                    && spec_group(self.hierarchy_view(), self.key())[i as int] == self.key(),
                None => spec_group(self.hierarchy_view(), self.key()).len() == 0,
            },
    {
        let parent = match self.parent() {
            Some(p) => p,
            None => return None,
        };
        let nested = self.hierarchy.get_nested(parent);
        proof {
            let m = self.hierarchy@;
            assert(m[*self.id].parent == Some(*parent));
        }
        let mut i: usize = 0;
        while i < nested.len()
            invariant
                i <= nested@.len(),
                nested@ == spec_group(self.hierarchy_view(), self.key()),
                nested@.contains(self.key()),
                forall|j: int| 0 <= j < i ==> nested@[j] != self.key(),
            decreases nested@.len() - i,
        {
            if nested[i].same(self.id) {
                return Some(i);
            }
            i += 1;
        }
        proof {
            let j = choose|j: int| 0 <= j < nested@.len() && nested@[j] == self.key();
            assert(nested@[j] != self.key());
        }
        None
    }

    pub fn group(&self) -> (r: &[Id])
        requires
            self.wf(),
        ensures
            r@ == spec_group(self.hierarchy_view(), self.key()),
    {
        self.hierarchy.group(self.id)
    }

    /// Find the next neighbor in the given preferred direction, if there is none in the direction
    /// takes one in the opposite side. None if there is none.
    pub fn neighbor(&self, direction_bias: DirectionBias) -> (r: Option<&Id>)
        requires
            self.wf(),
        ensures
            spec_group(self.hierarchy_view(), self.key()).len() == 0 ==> r is None,
            forall|i: int|
                0 <= i < spec_group(self.hierarchy_view(), self.key()).len()
                    && spec_group(self.hierarchy_view(), self.key())[i] == self.key()
                    ==> match r {
                        Some(n) => spec_neighbor(spec_group(self.hierarchy_view(), self.key()), i, direction_bias)
                            == Some(*n),
                        None => spec_neighbor(spec_group(self.hierarchy_view(), self.key()), i, direction_bias)
                            is None,
                    },
            match r {
                Some(n) => neighbor_of(self.hierarchy_view(), self.key(), direction_bias) == Some(*n),
                None => neighbor_of(self.hierarchy_view(), self.key(), direction_bias) is None,
            },
    {
        let index = match self.index() {
            Some(i) => i,
            None => return None,
        };
        let group = self.group();
        proof {
            self.hierarchy.lemma_links();
            let g = group@;
            let m = self.hierarchy@;
            assert(g == m[m[self.key()].parent->0].nested);
            assert(g.no_duplicates());
            let k = g.index_of(self.key());
            assert(g[index as int] == self.key());
            assert(g[k] == self.key());
            assert(k == index);
        }
        if index == 0 {
            if group.len() > 1 {
                Some(&group[1])
            } else {
                None
            }
        } else if index == group.len() - 1 {
            Some(&group[index - 1])
        } else {
            match direction_bias {
                DirectionBias::Begin => Some(&group[index - 1]),
                DirectionBias::End => Some(&group[index + 1]),
            }
        }
    }
}

} // verus!
