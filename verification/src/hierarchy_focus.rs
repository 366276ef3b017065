//! Where the focus goes when the focused instance stops.
use vstd::prelude::*;

use crate::focus_path::{parent_of, resolvable, spec_path_of, FocusPath};
use crate::ids::{DesktopTarget, InstanceId};
use crate::ordered_hierarchy::{neighbor_of, spec_nested, DirectionBias, HierarchyView, OrderedHierarchy};

verus! {

/// The optional target behind an optional reference.
pub open spec fn deref_opt(o: Option<&DesktopTarget>) -> Option<DesktopTarget> {
    match o {
        Some(t) => Some(*t),
        None => None,
    }
}

/// The last (innermost) instance on a path.
pub open spec fn last_instance(path: Seq<DesktopTarget>) -> Option<InstanceId>
    decreases path.len(),
{
    if path.len() == 0 {
        None
    } else {
        match path.last() {
            DesktopTarget::Instance(i) => Some(i),
            _ => last_instance(path.drop_last()),
        }
    }
}

/// The neighbor that takes over when `instance` stops while it is the innermost focused instance.
pub open spec fn spec_neighbor_for_stopping(
    m: HierarchyView<DesktopTarget>,
    focused: Option<DesktopTarget>,
    instance: InstanceId,
) -> Option<DesktopTarget> {
    if last_instance(spec_path_of(m, focused)) == Some(instance) {
        neighbor_of(m, DesktopTarget::Instance(instance), DirectionBias::Begin)
    } else {
        None
    }
}

/// The target focused in place of a neighbor: an instance's only view when the instance has
/// exactly one nested node and it is a view, else the neighbor itself.
pub open spec fn spec_neighbor_focus_target(m: HierarchyView<DesktopTarget>, neighbor: DesktopTarget) -> DesktopTarget {
    match neighbor {
        DesktopTarget::Instance(_) => {
            let s = spec_nested(m, neighbor);
            if s.len() == 1 && s[0] is View {
                s[0]
            } else {
                neighbor
            }
        },
        _ => neighbor,
    }
}

/// The focus that replaces the current one when `instance` stops: nothing when the instance is
/// not on the focused path, else the focus target of its neighbor, else its parent.
pub open spec fn spec_replacement_focus(
    m: HierarchyView<DesktopTarget>,
    focused: Option<DesktopTarget>,
    instance: InstanceId,
) -> Option<DesktopTarget> {
    if !spec_path_of(m, focused).contains(DesktopTarget::Instance(instance)) {
        None
    } else {
        match spec_neighbor_for_stopping(m, focused, instance) {
            Some(n) => Some(spec_neighbor_focus_target(m, n)),
            None => parent_of(m, DesktopTarget::Instance(instance)),
        }
    }
}

/// How much of a path stays when a new instance is added from it: up to and including a
/// launcher, up to an instance (which the new one joins as a sibling), or for a view, up to its
/// instance; `None` when no launcher, instance or view is on the path.
pub open spec fn instance_parent_len(path: Seq<DesktopTarget>) -> Option<int>
    decreases path.len(),
{
    if path.len() == 0 {
        None
    } else {
        match path.last() {
            DesktopTarget::Launcher(_) => Some(path.len() as int),
            DesktopTarget::Instance(_) => Some(path.len() - 1),
            DesktopTarget::View(_) => Some(path.len() - 2),
            _ => instance_parent_len(path.drop_last()),
        }
    }
}

/// The innermost launcher, instance or view of the path is not a view outside an instance.
pub open spec fn views_inside_instances(path: Seq<DesktopTarget>) -> bool
    decreases path.len(),
{
    if path.len() == 0 {
        true
    } else {
        match path.last() {
            DesktopTarget::Launcher(_) => true,
            DesktopTarget::Instance(_) => true,
            DesktopTarget::View(_) => path.len() >= 2 && path[path.len() - 2] is Instance,
            _ => views_inside_instances(path.drop_last()),
        }
    }
}

impl FocusPath<DesktopTarget> {
    /// The part of the path that new instances can be added to: up to the innermost launcher, or
    /// to the parent of the innermost instance.
    pub fn instance_parent(&self) -> (r: Option<FocusPath<DesktopTarget>>)
        requires
            views_inside_instances(self@),
        ensures
            match instance_parent_len(self@) {
                Some(k) => r matches Some(p) && p@ == self@.take(k),
                None => r is None,
            },
    {
        let s = self.as_slice();
        let mut i: usize = s.len();
        assert(s@.subrange(0, i as int) =~= self@);
        let mut keep: usize = 0;
        let mut found = false;
        while i > 0
            invariant_except_break
                !found,
            invariant
                i <= s@.len(),
                s@ == self@,
                instance_parent_len(self@) == instance_parent_len(s@.subrange(0, i as int)),
                views_inside_instances(s@.subrange(0, i as int)),
            ensures
                found ==> instance_parent_len(self@) == Some(keep as int) && keep <= s@.len(),
                !found ==> instance_parent_len(self@) is None,
            decreases i,
        {
            let ghost before = s@.subrange(0, i as int);
            assert(before.last() == s@[i - 1]);
            match s[i - 1] {
                DesktopTarget::Launcher(_) => {
                    keep = i;
                    found = true;
                    break;
                },
                DesktopTarget::Instance(_) => {
                    keep = i - 1;
                    found = true;
                    break;
                },
                DesktopTarget::View(_) => {
                    assert(before[i - 2] == s@[i - 2]);
                    keep = i - 2;
                    found = true;
                    break;
                },
                _ => {},
            }
            i -= 1;
            assert(before.drop_last() =~= s@.subrange(0, i as int));
        }
        if !found {
            assert(s@.subrange(0, 0).len() == 0);
            return None;
        }
        let mut components: Vec<DesktopTarget> = Vec::new();
        let mut j: usize = 0;
        while j < keep
            invariant
                keep <= s@.len(),
                j <= keep,
                components@ =~= s@.take(j as int),
            decreases keep - j,
        {
            components.push(s[j]);
            j += 1;
        }
        Some(FocusPath::from(components))
    }

    /// The innermost instance on the path.
    pub fn instance(&self) -> (r: Option<InstanceId>)
        ensures
            r == last_instance(self@),
    {
        let s = self.as_slice();
        let mut i: usize = s.len();
        assert(s@.subrange(0, i as int) =~= self@);
        while i > 0
            invariant
                i <= s@.len(),
                s@ == self@,
                last_instance(self@) == last_instance(s@.subrange(0, i as int)),
            decreases i,
        {
            let ghost before = s@.subrange(0, i as int);
            assert(before.last() == s@[i - 1]);
            if let DesktopTarget::Instance(id) = s[i - 1] {
                return Some(id);
            }
            i -= 1;
            assert(before.drop_last() =~= s@.subrange(0, i as int));
        }
        assert(s@.subrange(0, 0).len() == 0);
        None
    }
}

impl OrderedHierarchy<DesktopTarget> {
    /// Is `target` on the path from the root down to the focused target?
    pub fn path_contains_target(&self, focused: Option<&DesktopTarget>, target: &DesktopTarget) -> (r: bool)
        requires
            self.wf(),
            resolvable(self@, deref_opt(focused)),
        ensures
            r == spec_path_of(self@, deref_opt(focused)).contains(*target),
    {
        self.resolve_path(focused).contains(target)
    }

    /// The neighbor of `instance` that takes over when it stops, if it is the innermost focused
    /// instance.
    pub fn resolve_neighbor_for_stopping_instance(&self, focused: Option<&DesktopTarget>, instance: InstanceId) -> (r:
        Option<DesktopTarget>)
        requires
            self.wf(),
            resolvable(self@, deref_opt(focused)),
        ensures
            r == spec_neighbor_for_stopping(self@, deref_opt(focused), instance),
    {
        let focused_path = self.resolve_path(focused);
        match focused_path.instance() {
            Some(i) => {
                if i.0 != instance.0 {
                    return None;
                }
            },
            None => {
                return None;
            },
        }
        let instance_target = DesktopTarget::Instance(instance);
        let entry = self.entry(&instance_target);
        match entry.neighbor(DirectionBias::Begin) {
            Some(n) => Some(*n),
            None => None,
        }
    }

    /// The target to focus in place of a neighbor: the only view of an instance that has
    /// exactly one, else the neighbor itself.
    pub fn resolve_neighbor_focus_target(&self, neighbor: &DesktopTarget) -> (r: DesktopTarget)
        requires
            self.wf(),
        ensures
            r == spec_neighbor_focus_target(self@, *neighbor),
    {
        match neighbor {
            DesktopTarget::Instance(_) => {
                let nested = self.get_nested(neighbor);
                if nested.len() == 1 {
                    if let DesktopTarget::View(view) = nested[0] {
                        return DesktopTarget::View(view);
                    }
                }
                *neighbor
            },
            _ => *neighbor,
        }
    }

    /// The focus that replaces the current one when `instance` stops, or `None` when the
    /// instance is not on the focused path.
    pub fn resolve_replacement_focus_for_stopping_instance(&self, focused: Option<&DesktopTarget>, instance: InstanceId)
        -> (r: Option<DesktopTarget>)
        requires
            self.wf(),
            resolvable(self@, deref_opt(focused)),
            spec_path_of(self@, deref_opt(focused)).contains(DesktopTarget::Instance(instance)) ==> parent_of(
                self@,
                DesktopTarget::Instance(instance),
            ) is Some,
        ensures
            r == spec_replacement_focus(self@, deref_opt(focused), instance),
    {
        let instance_target = DesktopTarget::Instance(instance);
        if !self.path_contains_target(focused, &instance_target) {
            return None;
        }
        if let Some(neighbor) = self.resolve_neighbor_for_stopping_instance(focused, instance) {
            return Some(self.resolve_neighbor_focus_target(&neighbor));
        }
        match self.parent(&instance_target) {
            Some(p) => Some(*p),
            None => {
                proof {
                    assert(false);
                }
                None
            },
        }
    }
}

} // verus!
