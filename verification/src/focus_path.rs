//! Paths from a root of a hierarchy down to a focused node, and the exit / enter transitions
//! that lead from one such path to another.
use vstd::prelude::*;

use crate::ids::NodeKey;
use crate::ordered_hierarchy::{HierarchyView, OrderedHierarchy};

verus! {

/// The parent of `id` in `m`, if `id` exists and has one.
pub open spec fn parent_of<Id>(m: HierarchyView<Id>, id: Id) -> Option<Id> {
    if m.contains_key(id) {
        m[id].parent
    } else {
        None
    }
}

/// The node reached from `id` after `k` steps along the parent links (`id` itself for `k == 0`,
/// whether or not it exists).
pub open spec fn up<Id>(m: HierarchyView<Id>, id: Id, k: nat) -> Option<Id>
    decreases k,
{
    if k == 0 {
        Some(id)
    } else {
        match up(m, id, (k - 1) as nat) {
            Some(c) => parent_of(m, c),
            None => None,
        }
    }
}

/// Following the parent links from `id` visits exactly `n` nodes.
pub open spec fn chain_len<Id>(m: HierarchyView<Id>, id: Id, n: nat) -> bool {
    &&& up(m, id, n) is None
    &&& forall|j: nat| j < n ==> #[trigger] up(m, id, j) is Some
}

/// Following the parent links from `id` ends: no cycle is reached.
pub open spec fn chain_finite<Id>(m: HierarchyView<Id>, id: Id) -> bool {
    exists|n: nat| #[trigger] up(m, id, n) is None
}

/// The number of nodes on the parent chain of `id` (meaningful when the chain is finite).
pub open spec fn chain_length<Id>(m: HierarchyView<Id>, id: Id) -> nat {
    choose|n: nat| chain_len(m, id, n)
}

/// The path from the root down to `id`: the parent chain of `id`, outermost node first.
pub open spec fn spec_resolve_path<Id>(m: HierarchyView<Id>, id: Id) -> Seq<Id> {
    let n = chain_length(m, id);
    Seq::new(n, |i: int| up(m, id, (n - 1 - i) as nat)->0)
}

/// The path resolved for an optional focus: empty when nothing is focused.
pub open spec fn spec_path_of<Id>(m: HierarchyView<Id>, focused: Option<Id>) -> Seq<Id> {
    match focused {
        Some(f) => spec_resolve_path(m, f),
        None => Seq::empty(),
    }
}

/// The resolvable focus: nothing, or a node whose parent chain ends.
pub open spec fn resolvable<Id>(m: HierarchyView<Id>, focused: Option<Id>) -> bool {
    match focused {
        Some(f) => chain_finite(m, f),
        None => true,
    }
}

pub proof fn lemma_up_none_stays<Id>(m: HierarchyView<Id>, id: Id, j: nat, k: nat)
    requires
        up(m, id, j) is None,
        j <= k,
    ensures
        up(m, id, k) is None,
    decreases k - j,
{
    if j < k {
        lemma_up_none_stays(m, id, j, (k - 1) as nat);
    }
}

pub proof fn lemma_chain_len_unique<Id>(m: HierarchyView<Id>, id: Id, a: nat, b: nat)
    requires
        chain_len(m, id, a),
        chain_len(m, id, b),
    ensures
        a == b,
{
    if a < b {
        assert(up(m, id, a) is Some);
    } else if b < a {
        assert(up(m, id, b) is Some);
    }
}

/// A finite parent chain has a length: the number of nodes on it.
pub proof fn lemma_chain_length<Id>(m: HierarchyView<Id>, id: Id)
    requires
        chain_finite(m, id),
    ensures
        chain_len(m, id, chain_length(m, id)),
        chain_length(m, id) >= 1,
{
    let n = choose|n: nat| #[trigger] up(m, id, n) is None;
    lemma_first_none(m, id, n);
    let k = chain_length(m, id);
    assert(up(m, id, 0) is Some);
}

proof fn lemma_first_none<Id>(m: HierarchyView<Id>, id: Id, n: nat)
    requires
        up(m, id, n) is None,
    ensures
        exists|k: nat| chain_len(m, id, k),
    decreases n,
{
    if n > 0 && up(m, id, (n - 1) as nat) is None {
        lemma_first_none(m, id, (n - 1) as nat);
    } else {
        assert forall|j: nat| j < n implies #[trigger] up(m, id, j) is Some by {
            if up(m, id, j) is None {
                lemma_up_none_stays(m, id, j, (n - 1) as nat);
            }
        }
        assert(chain_len(m, id, n));
    }
}

/// Walking `a + b` steps up from `id` is walking `b` steps up from where `a` steps lead.
pub proof fn lemma_up_add<Id>(m: HierarchyView<Id>, id: Id, a: nat, b: nat)
    requires
        up(m, id, a) is Some,
    ensures
        up(m, id, a + b) == up(m, up(m, id, a)->0, b),
    decreases b,
{
    if b > 0 {
        lemma_up_add(m, id, a, (b - 1) as nat);
        assert((a + b - 1) as nat == a + (b - 1) as nat);
    }
}

proof fn lemma_cycle_repeats<Id>(m: HierarchyView<Id>, t: Id, c: nat, n: nat)
    requires
        up(m, t, c) == Some(t),
    ensures
        up(m, t, n * c) == Some(t),
    decreases n,
{
    if n > 0 {
        lemma_cycle_repeats(m, t, c, (n - 1) as nat);
        lemma_up_add(m, t, ((n - 1) * c) as nat, c);
        assert(n * c == (n - 1) * c + c) by (nonlinear_arith);
    } else {
        assert(n * c == 0) by (nonlinear_arith)
            requires
                n == 0,
        ;
    }
}

/// A node whose parent chain ends is never reached again by walking up from it.
pub proof fn lemma_no_return<Id>(m: HierarchyView<Id>, t: Id, c: nat)
    requires
        chain_finite(m, t),
        c > 0,
    ensures
        up(m, t, c) != Some(t),
{
    if up(m, t, c) == Some(t) {
        let n = choose|n: nat| #[trigger] up(m, t, n) is None;
        lemma_cycle_repeats(m, t, c, n);
        assert(n * c >= n) by (nonlinear_arith)
            requires
                c > 0,
        ;
        lemma_up_none_stays(m, t, n, n * c);
    }
}

/// A node on the path of a node whose parent chain ends has a parent chain that ends, found
/// some steps up.
pub proof fn lemma_on_path<Id>(m: HierarchyView<Id>, f: Id, t: Id)
    requires
        chain_finite(m, f),
        spec_resolve_path(m, f).contains(t),
    ensures
        chain_finite(m, t),
        exists|j: nat| up(m, f, j) == Some(t),
{
    lemma_chain_length(m, f);
    let n = chain_length(m, f);
    let path = spec_resolve_path(m, f);
    let i = path.index_of(t);
    let j = (n - 1 - i) as nat;
    assert(up(m, f, j) is Some);
    assert(up(m, f, j) == Some(t));
    let z = choose|z: nat| #[trigger] up(m, f, z) is None;
    lemma_up_add(m, f, j, z);
    lemma_up_none_stays(m, f, z, j + z);
    assert(up(m, t, z) is None);
}

/// The path resolved for a node ends at the node and starts at a root: a node without parent.
pub proof fn law_resolved_path_ends_at_target<Id>(m: HierarchyView<Id>, id: Id)
    requires
        chain_finite(m, id),
    ensures
        spec_resolve_path(m, id).len() >= 1,
        spec_resolve_path(m, id).last() == id,
        parent_of(m, spec_resolve_path(m, id)[0]) is None,
{
    lemma_chain_length(m, id);
    let n = chain_length(m, id);
    let p = spec_resolve_path(m, id);
    assert(up(m, id, 0) == Some(id));
    assert(p[n - 1] == up(m, id, 0)->0);
    assert(up(m, id, (n - 1) as nat) is Some);
    assert(p[0] == up(m, id, (n - 1) as nat)->0);
    assert(up(m, id, n) is None);
}

/// One step of a focus change: a node that loses focus, or one that gains it.
#[derive(Debug, Clone, Copy, PartialEq, Eq)]
pub enum FocusTransition<T> {
    Exit(T),
    Enter(T),
}

/// `c` is the length of the longest common prefix of `a` and `b`.
pub open spec fn is_common_prefix_len<T>(a: Seq<T>, b: Seq<T>, c: int) -> bool {
    &&& 0 <= c <= a.len()
    &&& c <= b.len()
    &&& forall|i: int| 0 <= i < c ==> a[i] == b[i]
    &&& c < a.len() && c < b.len() ==> a[c] != b[c]
}

/// The transitions from path `a` to path `b` whose longest common prefix has length `c`: the
/// nodes of `a` below the prefix are exited bottom-up, then those of `b` are entered top-down.
pub open spec fn spec_transitions<T>(a: Seq<T>, b: Seq<T>, c: int) -> Seq<FocusTransition<T>> {
    Seq::new((a.len() - c) as nat, |i: int| FocusTransition::Exit(a[a.len() - 1 - i]))
        + Seq::new((b.len() - c) as nat, |i: int| FocusTransition::Enter(b[c + i]))
}

/// A path into a focus tree / hierarchy.
#[derive(Debug, Clone, PartialEq, Eq)]
pub struct FocusPath<T> {
    components: Vec<T>,
}

impl<T> View for FocusPath<T> {
    type V = Seq<T>;

    closed spec fn view(&self) -> Seq<T> {
        self.components@
    }
}

impl<T> From<Vec<T>> for FocusPath<T> {
    fn from(components: Vec<T>) -> (p: FocusPath<T>)
        ensures
            p@ == components@,
    {
        FocusPath { components }
    }
}

impl<T> vstd::std_specs::convert::FromSpecImpl<Vec<T>> for FocusPath<T> {
    open spec fn obeys_from_spec() -> bool {
        true
    }

    closed spec fn from_spec(v: Vec<T>) -> FocusPath<T> {
        FocusPath { components: v }
    }
}

impl<T: NodeKey> Default for FocusPath<T> {
    fn default() -> (p: Self)
        ensures
            p@ == Seq::<T>::empty(),
    {
        FocusPath::empty()
    }
}

impl<T: NodeKey> FocusPath<T> {
    /// The empty path.
    pub fn empty() -> (p: Self)
        ensures
            p@ == Seq::<T>::empty(),
    {
        FocusPath { components: Vec::new() }
    }

    /// The path made of one component.
    pub fn new(component: T) -> (p: Self)
        ensures
            p@ == seq![component],
    {
        let mut components = Vec::new();
        components.push(component);
        FocusPath { components }
    }

    /// The path extended by one component at its end.
    pub fn join(self, component: T) -> (p: Self)
        ensures
            p@ == self@.push(component),
    {
        let mut components = self.components;
        components.push(component);
        FocusPath { components }
    }

    /// The path without its last component, or `None` for the empty path.
    pub fn parent(&self) -> (r: Option<Self>)
        ensures
            match r {
                Some(p) => self@.len() > 0 && p@ == self@.drop_last(),
                None => self@.len() == 0,
            },
    {
        let n = self.components.len();
        if n == 0 {
            return None;
        }
        let mut rest: Vec<T> = Vec::new();
        let mut i: usize = 0;
        while i < n - 1
            invariant
                n == self@.len(),
                n > 0,
                i <= n - 1,
                rest@ == self@.subrange(0, i as int),
            decreases n - 1 - i,
        {
            rest.push(self.components[i]);
            i += 1;
            assert(rest@ =~= self@.subrange(0, i as int));
        }
        Some(FocusPath { components: rest })
    }

    /// Append one component.
    pub fn push(&mut self, component: T)
        ensures
            final(self)@ == old(self)@.push(component),
    {
        self.components.push(component);
    }

    /// The path extended by one component at its end.
    pub fn with(self, component: T) -> (p: Self)
        ensures
            p@ == self@.push(component),
    {
        self.join(component)
    }

    /// Take the path out, leaving the empty path in its place.
    pub fn take(&mut self) -> (r: Self)
        ensures
            r@ == old(self)@,
            final(self)@ == Seq::<T>::empty(),
    {
        let mut components = Vec::new();
        std::mem::swap(&mut components, &mut self.components);
        FocusPath { components }
    }

    pub fn len(&self) -> (r: usize)
        ensures
            r == self@.len(),
    {
        self.components.len()
    }

    pub fn as_slice(&self) -> (r: &[T])
        ensures
            r@ == self@,
    {
        self.components.as_slice()
    }

    /// Is `component` on the path?
    pub fn contains(&self, component: &T) -> (r: bool)
        ensures
            r == self@.contains(*component),
    {
        let mut i: usize = 0;
        while i < self.components.len()
            invariant
                i <= self@.len(),
                forall|j: int| 0 <= j < i ==> self@[j] != *component,
            decreases self@.len() - i,
        {
            if self.components[i].same(component) {
                return true;
            }
            i += 1;
        }
        false
    }

    /// Transition to a new path and return the nested exit / enter sequence.
    pub fn transitions(&self, other: Self) -> (r: Vec<FocusTransition<T>>)
        ensures
            exists|c: int|
                is_common_prefix_len(self@, other@, c) && r@ == spec_transitions(self@, other@, c),
    {
        let a = &self.components;
        let b = &other.components;
        let mut c: usize = 0;
        while c < a.len() && c < b.len() && a[c].same(&b[c])
            invariant
                c <= a@.len(),
                c <= b@.len(),
                forall|i: int| 0 <= i < c ==> a@[i] == b@[i],
            decreases a@.len() - c,
        {
            c += 1;
        }
        let ghost exits = Seq::new((a@.len() - c) as nat, |i: int| FocusTransition::Exit(a@[a@.len() - 1 - i]));
        let mut out: Vec<FocusTransition<T>> = Vec::new();
        let mut i: usize = a.len();
        while i > c
            invariant
                c <= i <= a@.len(),
                out@ =~= Seq::new((a@.len() - i) as nat, |j: int| FocusTransition::Exit(a@[a@.len() - 1 - j])),
            decreases i,
        {
            i -= 1;
            out.push(FocusTransition::Exit(a[i]));
        }
        assert(out@ =~= exits);
        let mut j: usize = c;
        while j < b.len()
            invariant
                c <= j <= b@.len(),
                out@ =~= exits + Seq::new((j - c) as nat, |k: int| FocusTransition::Enter(b@[c + k])),
            decreases b@.len() - j,
        {
            out.push(FocusTransition::Enter(b[j]));
            j += 1;
        }
        assert(is_common_prefix_len(self@, other@, c as int));
        out
    }
}

/// Moving from a path to itself exits and enters nothing.
pub proof fn law_transitions_to_self_are_empty<T>(a: Seq<T>, c: int)
    requires
        is_common_prefix_len(a, a, c),
    ensures
        spec_transitions(a, a, c).len() == 0,
{
}

/// The transitions from `a` to `b` exit every component of `a` below the common prefix and
/// enter every component of `b` below it: their count is the sum of the two remainders.
pub proof fn law_transition_count<T>(a: Seq<T>, b: Seq<T>, c: int)
    requires
        is_common_prefix_len(a, b, c),
    ensures
        spec_transitions(a, b, c).len() == (a.len() - c) + (b.len() - c),
{
}

impl<Id: NodeKey> OrderedHierarchy<Id> {
    /// The path from the root down to `id`; empty for no id. A node that does not exist resolves
    /// to the path made of itself alone.
    pub fn resolve_path(&self, id: Option<&Id>) -> (p: FocusPath<Id>)
        requires
            self.wf(),
            match id {
                Some(i) => chain_finite(self@, *i),
                None => true,
            },
        ensures
            p@ == match id {
                Some(i) => spec_resolve_path(self@, *i),
                None => Seq::empty(),
            },
    {
        let start = match id {
            Some(s) => *s,
            None => return FocusPath::empty(),
        };
        let ghost m = self@;
        let ghost n = choose|n: nat| #[trigger] up(m, start, n) is None;
        let mut rev: Vec<Id> = Vec::new();
        let mut cur: Id = start;
        loop
            invariant_except_break
                up(m, start, rev@.len() as nat) == Some(cur),
                rev@.len() < n,
            invariant
                self.wf(),
                m == self@,
                up(m, start, n) is None,
                forall|j: int| 0 <= j < rev@.len() ==> up(m, start, j as nat) == Some(#[trigger] rev@[j]),
            ensures
                up(m, start, rev@.len() as nat) is None,
            decreases n - rev@.len(),
        {
            let ghost len = rev@.len();
            rev.push(cur);
            assert(up(m, start, (len + 1) as nat) == parent_of(m, cur));
            match self.parent(&cur) {
                Some(p) => {
                    cur = *p;
                    proof {
                        if len + 1 >= n {
                            lemma_up_none_stays(m, start, n, (len + 1) as nat);
                        }
                    }
                },
                None => {
                    break ;
                },
            }
        }
        let ghost len = rev@.len();
        proof {
            assert(chain_len(m, start, len as nat)) by {
                assert forall|j: nat| j < len implies #[trigger] up(m, start, j) is Some by {
                    assert(up(m, start, j as int as nat) == Some(rev@[j as int]));
                }
            }
            let cn = chain_length(m, start);
            lemma_chain_len_unique(m, start, cn, len as nat);
        }
        let mut components: Vec<Id> = Vec::new();
        let mut i: usize = rev.len();
        while i > 0
            invariant
                i <= rev@.len(),
                rev@.len() == len,
                components@ =~= Seq::new((len - i) as nat, |j: int| rev@[len - 1 - j]),
            decreases i,
        {
            i -= 1;
            components.push(rev[i]);
        }
        proof {
            let target = spec_resolve_path(m, start);
            assert(target.len() == len);
            assert forall|j: int| 0 <= j < len implies components@[j] == target[j] by {
                assert(up(m, start, (len - 1 - j) as int as nat) == Some(rev@[len - 1 - j]));
            }
            assert(components@ =~= target);
        }
        FocusPath { components }
    }
}

} // verus!
