//! A focus tree keeps the current focus path that points into a hierarchy and provides the
//! transitions (as paths) when the focus changes.
use vstd::prelude::*;

use crate::focus_path::{is_common_prefix_len, FocusPath};
use crate::ids::NodeKey;

verus! {

/// A node that loses or gains focus, given by its full path.
#[derive(Debug)]
pub enum FocusTransition<T> {
    Enter(FocusPath<T>),
    Exit(FocusPath<T>),
}

impl<T> View for FocusTransition<T> {
    type V = crate::focus_path::FocusTransition<Seq<T>>;

    open spec fn view(&self) -> Self::V {
        match self {
            FocusTransition::Enter(p) => crate::focus_path::FocusTransition::Enter(p@),
            FocusTransition::Exit(p) => crate::focus_path::FocusTransition::Exit(p@),
        }
    }
}

/// The transitions from the focused path `a` to `b` (common prefix of length `c`): the paths of
/// `a` below the prefix are exited, longest first, then those of `b` are entered, shortest first.
pub open spec fn spec_tree_transitions<T>(a: Seq<T>, b: Seq<T>, c: int) -> Seq<
    crate::focus_path::FocusTransition<Seq<T>>,
> {
    Seq::new((a.len() - c) as nat, |i: int| crate::focus_path::FocusTransition::Exit(a.take(a.len() - i)))
        + Seq::new((b.len() - c) as nat, |i: int| crate::focus_path::FocusTransition::Enter(b.take(c + i + 1)))
}

/// The current focus path of a tree.
#[derive(Debug)]
pub struct FocusTree<T> {
    focused: FocusPath<T>,
}

impl<T> View for FocusTree<T> {
    type V = Seq<T>;

    closed spec fn view(&self) -> Seq<T> {
        self.focused@
    }
}

impl<T: NodeKey> Default for FocusTree<T> {
    fn default() -> (t: Self)
        ensures
            t@ == Seq::<T>::empty(),
    {
        FocusTree { focused: FocusPath::empty() }
    }
}

/// The first `n` components of `s` as a path of their own.
fn prefix<T: NodeKey>(s: &[T], n: usize) -> (p: FocusPath<T>)
    requires
        n <= s@.len(),
    ensures
        p@ == s@.take(n as int),
{
    let mut v: Vec<T> = Vec::new();
    let mut i: usize = 0;
    while i < n
        invariant
            i <= n <= s@.len(),
            v@ =~= s@.take(i as int),
        decreases n - i,
    {
        v.push(s[i]);
        i += 1;
    }
    FocusPath::from(v)
}

impl<T: NodeKey> FocusTree<T> {
    /// A tree whose focus starts at `focused`.
    pub fn new(focused: FocusPath<T>) -> (t: Self)
        ensures
            t@ == focused@,
    {
        FocusTree { focused }
    }

    pub fn focused(&self) -> (r: &FocusPath<T>)
        ensures
            r@ == self@,
    {
        &self.focused
    }

    /// Focus `new_path` and return the paths exited and entered on the way.
    pub fn focus(&mut self, new_path: FocusPath<T>) -> (r: Vec<FocusTransition<T>>)
        ensures
            final(self)@ == new_path@,
            exists|c: int|
                is_common_prefix_len(old(self)@, new_path@, c) && r@.len() == spec_tree_transitions(
                    old(self)@,
                    new_path@,
                    c,
                ).len() && forall|i: int|
                    0 <= i < r@.len() ==> (#[trigger] r@[i])@ == spec_tree_transitions(old(self)@, new_path@, c)[i],
    {
        let a = self.focused.as_slice();
        let b = new_path.as_slice();
        let mut c: usize = 0;
        while c < a.len() && c < b.len() && a[c].same(&b[c])
            invariant
                c <= a@.len(),
                c <= b@.len(),
                forall|i: int| 0 <= i < c ==> a@[i] == b@[i],
            decreases a@.len() - c,
        {
            c += 1;
        }
        let ghost spec = spec_tree_transitions(a@, b@, c as int);
        let ghost na = a@.len() - c;
        let mut transitions: Vec<FocusTransition<T>> = Vec::new();
        let mut i: usize = a.len();
        while i > c
            invariant
                c <= i <= a@.len(),
                spec == spec_tree_transitions(a@, b@, c as int),
                transitions@.len() == a@.len() - i,
                forall|j: int| 0 <= j < transitions@.len() ==> (#[trigger] transitions@[j])@ == spec[j],
            decreases i,
        {
            let p = prefix(a, i);
            proof {
                assert(spec[a@.len() - i] == crate::focus_path::FocusTransition::Exit(a@.take(i as int)));
            }
            let ghost before = transitions@;
            let t = FocusTransition::Exit(p);
            assert(t@ == spec[before.len() as int]);
            transitions.push(t);
            proof {
                assert forall|k: int| 0 <= k < transitions@.len() implies (#[trigger] transitions@[k])@ == spec[k] by {
                    if k < before.len() {
                        assert(transitions@[k] == before[k]);
                    }
                }
            }
            i -= 1;
        }
        let mut j: usize = c;
        while j < b.len()
            invariant
                c <= j <= b@.len(),
                c <= a@.len(),
                spec == spec_tree_transitions(a@, b@, c as int),
                transitions@.len() == (a@.len() - c) + (j - c),
                forall|k: int| 0 <= k < transitions@.len() ==> (#[trigger] transitions@[k])@ == spec[k],
            decreases b@.len() - j,
        {
            let p = prefix(b, j + 1);
            proof {
                let s1 = Seq::new(
                    (a@.len() - c) as nat,
                    |i: int| crate::focus_path::FocusTransition::Exit(a@.take(a@.len() - i)),
                );
                let s2 = Seq::new(
                    (b@.len() - c) as nat,
                    |i: int| crate::focus_path::FocusTransition::Enter(b@.take(c + i + 1)),
                );
                assert(spec == s1 + s2);
                assert(s2[j - c] == crate::focus_path::FocusTransition::Enter(b@.take(j + 1)));
                assert((s1 + s2)[s1.len() + (j - c)] == s2[j - c]);
            }
            let ghost before = transitions@;
            let t = FocusTransition::Enter(p);
            assert(t@ == spec[before.len() as int]);
            transitions.push(t);
            proof {
                assert forall|k: int| 0 <= k < transitions@.len() implies (#[trigger] transitions@[k])@ == spec[k] by {
                    if k < before.len() {
                        assert(transitions@[k] == before[k]);
                    }
                }
            }
            j += 1;
        }
        assert(is_common_prefix_len(self@, new_path@, c as int));
        self.focused = new_path;
        transitions
    }
}

/// Focusing the path that is focused already exits and enters nothing.
pub proof fn law_refocus_is_silent<T>(a: Seq<T>, c: int)
    requires
        is_common_prefix_len(a, a, c),
    ensures
        spec_tree_transitions(a, a, c).len() == 0,
{
}

} // verus!
