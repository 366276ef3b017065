//! Queries on the desktop's topology: the launcher, project or instance a target belongs to.
use vstd::prelude::*;

use crate::focus_path::{lemma_up_none_stays, parent_of, up};
use crate::ids::{DesktopTarget, InstanceId, LaunchProfileId, ProjectId};
use crate::ordered_hierarchy::{spec_nested, HierarchyView, OrderedHierarchy};

verus! {

/// The hierarchy of the desktop's targets.
pub type DesktopTopology = OrderedHierarchy<DesktopTarget>;

/// The launcher `instance` is nested under, when its parent is a launcher.
pub open spec fn launcher_parent(m: HierarchyView<DesktopTarget>, instance: InstanceId) -> Option<LaunchProfileId> {
    match parent_of(m, DesktopTarget::Instance(instance)) {
        Some(DesktopTarget::Launcher(l)) => Some(l),
        _ => None,
    }
}

/// The project whose matrix `launcher` is nested under, when its parent is a project matrix.
pub open spec fn matrix_parent(m: HierarchyView<DesktopTarget>, launcher: LaunchProfileId) -> Option<ProjectId> {
    match parent_of(m, DesktopTarget::Launcher(launcher)) {
        Some(DesktopTarget::ProjectMatrix(p)) => Some(p),
        _ => None,
    }
}

/// The node `k` steps up from `t` is an instance.
pub open spec fn is_instance_at(m: HierarchyView<DesktopTarget>, t: DesktopTarget, k: nat) -> bool {
    up(m, t, k) matches Some(DesktopTarget::Instance(_))
}

/// `i` is the nearest instance at or above `t`, found `k` steps up.
pub open spec fn nearest_instance(m: HierarchyView<DesktopTarget>, t: DesktopTarget, k: nat, i: InstanceId) -> bool {
    &&& up(m, t, k) == Some(DesktopTarget::Instance(i))
    &&& forall|j: nat| j < k ==> !#[trigger] is_instance_at(m, t, j)
}

/// Walking up from `t` meets an instance or runs out of parents.
pub open spec fn instance_walk_ends(m: HierarchyView<DesktopTarget>, t: DesktopTarget) -> bool {
    exists|k: nat| #[trigger] up(m, t, k) is None || is_instance_at(m, t, k)
}

/// The node `k` steps up from `t` is a view.
pub open spec fn is_view_at(m: HierarchyView<DesktopTarget>, t: DesktopTarget, k: nat) -> bool {
    up(m, t, k) matches Some(DesktopTarget::View(_))
}

/// Walking up from `t`, the first node that is not a view (or the end of the walk) comes after
/// `k` steps.
pub open spec fn first_non_view(m: HierarchyView<DesktopTarget>, t: DesktopTarget, k: nat) -> bool {
    &&& !is_view_at(m, t, k)
    &&& forall|j: nat| j < k ==> #[trigger] is_view_at(m, t, j)
}

/// How many views lie between `t` and the first node at or above it that is not a view.
pub open spec fn view_steps(m: HierarchyView<DesktopTarget>, t: DesktopTarget) -> nat {
    choose|k: nat| first_non_view(m, t, k)
}

/// The launcher `t` belongs to: that of the first node at or above it that is not a view.
pub open spec fn target_launcher(m: HierarchyView<DesktopTarget>, t: DesktopTarget) -> Option<LaunchProfileId> {
    launcher_at(m, up(m, t, view_steps(m, t)))
}

/// The project `t` belongs to: that of the first node at or above it that is not a view.
pub open spec fn target_project(m: HierarchyView<DesktopTarget>, t: DesktopTarget) -> Option<ProjectId> {
    project_at(m, up(m, t, view_steps(m, t)))
}

/// The launcher a non-view node belongs to: itself, or the parent launcher of an instance.
pub open spec fn launcher_at(m: HierarchyView<DesktopTarget>, node: Option<DesktopTarget>) -> Option<LaunchProfileId> {
    match node {
        Some(DesktopTarget::Launcher(l)) => Some(l),
        Some(DesktopTarget::Instance(i)) => launcher_parent(m, i),
        _ => None,
    }
}

/// `launcher_at` finds its answer without meeting an instance that lies outside a launcher.
pub open spec fn launcher_defined(m: HierarchyView<DesktopTarget>, node: Option<DesktopTarget>) -> bool {
    match node {
        Some(DesktopTarget::Instance(i)) => launcher_parent(m, i) is Some,
        _ => true,
    }
}

/// The project a non-view node belongs to.
pub open spec fn project_at(m: HierarchyView<DesktopTarget>, node: Option<DesktopTarget>) -> Option<ProjectId> {
    match node {
        Some(DesktopTarget::Project(p)) => Some(p),
        Some(DesktopTarget::ProjectHeader(p)) => Some(p),
        Some(DesktopTarget::ProjectMatrix(p)) => Some(p),
        Some(DesktopTarget::Launcher(l)) => matrix_parent(m, l),
        Some(DesktopTarget::Instance(i)) => match launcher_parent(m, i) {
            Some(l) => matrix_parent(m, l),
            None => None,
        },
        _ => None,
    }
}

/// `project_at` finds its answer without meeting an instance outside a launcher or a launcher
/// outside a project matrix.
pub open spec fn project_defined(m: HierarchyView<DesktopTarget>, node: Option<DesktopTarget>) -> bool {
    match node {
        Some(DesktopTarget::Launcher(l)) => matrix_parent(m, l) is Some,
        Some(DesktopTarget::Instance(i)) => match launcher_parent(m, i) {
            Some(l) => matrix_parent(m, l) is Some,
            None => false,
        },
        _ => true,
    }
}

/// Every node nested under `parent` is a launcher.
pub open spec fn all_launchers(s: Seq<DesktopTarget>) -> bool {
    forall|i: int| 0 <= i < s.len() ==> #[trigger] s[i] is Launcher
}

/// Every node nested under `parent` is an instance.
pub open spec fn all_instances(s: Seq<DesktopTarget>) -> bool {
    forall|i: int| 0 <= i < s.len() ==> #[trigger] s[i] is Instance
}

/// The launcher ids of a list of launcher targets.
pub open spec fn launcher_ids(s: Seq<DesktopTarget>) -> Seq<LaunchProfileId> {
    Seq::new(s.len(), |i: int| s[i]->Launcher_0)
}

/// The instance ids of a list of instance targets.
pub open spec fn instance_ids(s: Seq<DesktopTarget>) -> Seq<InstanceId> {
    Seq::new(s.len(), |i: int| s[i]->Instance_0)
}

/// The shape the desktop keeps: project matrices hold launchers, launchers hold instances.
pub open spec fn desktop_shape(m: HierarchyView<DesktopTarget>) -> bool {
    &&& forall|p: ProjectId| #[trigger] all_launchers(spec_nested(m, DesktopTarget::ProjectMatrix(p)))
    &&& forall|l: LaunchProfileId| #[trigger] all_instances(spec_nested(m, DesktopTarget::Launcher(l)))
}

/// A list of instance targets without repeats has instance ids without repeats.
pub proof fn lemma_instance_ids_no_duplicates(s: Seq<DesktopTarget>)
    requires
        all_instances(s),
        s.no_duplicates(),
    ensures
        instance_ids(s).no_duplicates(),
{
    let ids = instance_ids(s);
    assert forall|a: int, b: int| 0 <= a < ids.len() && 0 <= b < ids.len() && a != b implies ids[a] != ids[b] by {
        assert(s[a] is Instance);
        assert(s[b] is Instance);
        assert(s[a] == DesktopTarget::Instance(ids[a]));
        assert(s[b] == DesktopTarget::Instance(ids[b]));
    }
}

proof fn lemma_first_non_view_unique(m: HierarchyView<DesktopTarget>, t: DesktopTarget, a: nat, b: nat)
    requires
        first_non_view(m, t, a),
        first_non_view(m, t, b),
    ensures
        a == b,
{
    if a < b {
        assert(is_view_at(m, t, a));
    } else if b < a {
        assert(is_view_at(m, t, b));
    }
}

impl OrderedHierarchy<DesktopTarget> {
    /// The launcher an instance is nested under.
    pub fn launcher_of_instance(&self, instance_id: InstanceId) -> (r: LaunchProfileId)
        requires
            self.wf(),
            launcher_parent(self@, instance_id) is Some,
        ensures
            launcher_parent(self@, instance_id) == Some(r),
    {
        match self.parent(&DesktopTarget::Instance(instance_id)) {
            Some(DesktopTarget::Launcher(id)) => *id,
            _ => {
                proof {
                    assert(false);
                }
                LaunchProfileId(0)
            },
        }
    }

    /// The project whose matrix a launcher is nested under.
    pub fn project_of_launcher(&self, launcher_id: LaunchProfileId) -> (r: ProjectId)
        requires
            self.wf(),
            matrix_parent(self@, launcher_id) is Some,
        ensures
            matrix_parent(self@, launcher_id) == Some(r),
    {
        match self.parent(&DesktopTarget::Launcher(launcher_id)) {
            Some(DesktopTarget::ProjectMatrix(id)) => *id,
            _ => {
                proof {
                    assert(false);
                }
                ProjectId(0)
            },
        }
    }

    /// The nearest instance at or above `target`: the target itself when it is an instance.
    pub fn instance_of_target(&self, target: &DesktopTarget) -> (r: Option<InstanceId>)
        requires
            self.wf(),
            instance_walk_ends(self@, *target),
        ensures
            match r {
                Some(i) => exists|k: nat| #[trigger] nearest_instance(self@, *target, k, i),
                None => forall|k: nat| !#[trigger] is_instance_at(self@, *target, k),
            },
    {
        let ghost m = self@;
        let ghost t = *target;
        let ghost fuel = choose|k: nat| #[trigger] up(m, t, k) is None || is_instance_at(m, t, k);
        let ghost mut steps: nat = 0;
        let mut cur = *target;
        loop
            invariant
                self.wf(),
                m == self@,
                t == *target,
                up(m, t, steps) == Some(cur),
                forall|j: nat| j < steps ==> !#[trigger] is_instance_at(m, t, j),
                steps <= fuel,
                up(m, t, fuel) is None || is_instance_at(m, t, fuel),
            decreases fuel - steps,
        {
            if let DesktopTarget::Instance(i) = cur {
                let r = Some(i);
                assert(nearest_instance(self@, *target, steps, r->0));
                return r;
            }
            assert(!is_instance_at(m, t, steps));
            assert(steps < fuel);
            assert(up(m, t, steps + 1) == parent_of(m, cur));
            match self.parent(&cur) {
                Some(p) => {
                    cur = *p;
                    proof {
                        steps = steps + 1;
                    }
                },
                None => {
                    proof {
                        assert forall|k: nat| !#[trigger] is_instance_at(m, t, k) by {
                            if k > steps {
                                lemma_up_none_stays(m, t, steps + 1, k);
                            }
                        }
                    }
                    return None;
                },
            }
        }
    }

    /// The launcher a target belongs to: the target itself, the launcher of an instance, or for
    /// a view, the launcher of its parent.
    pub fn launcher_of_target(&self, target: &DesktopTarget) -> (r: Option<LaunchProfileId>)
        requires
            self.wf(),
            exists|k: nat|
                first_non_view(self@, *target, k) && launcher_defined(self@, #[trigger] up(self@, *target, k)),
        ensures
            forall|k: nat| first_non_view(self@, *target, k) ==> r == launcher_at(self@, #[trigger] up(self@, *target, k)),
    {
        let ghost m = self@;
        let ghost t = *target;
        let ghost fuel = choose|k: nat| first_non_view(m, t, k) && launcher_defined(m, #[trigger] up(m, t, k));
        let ghost mut steps: nat = 0;
        let mut cur = *target;
        loop
            invariant
                self.wf(),
                m == self@,
                t == *target,
                up(m, t, steps) == Some(cur),
                forall|j: nat| j < steps ==> #[trigger] is_view_at(m, t, j),
                steps <= fuel,
                first_non_view(m, t, fuel),
                launcher_defined(m, up(m, t, fuel)),
            decreases fuel - steps,
        {
            if let DesktopTarget::View(_) = cur {
                assert(is_view_at(m, t, steps));
                assert(steps < fuel);
                assert(up(m, t, steps + 1) == parent_of(m, cur));
                match self.parent(&cur) {
                    Some(p) => {
                        cur = *p;
                        proof {
                            steps = steps + 1;
                        }
                    },
                    None => {
                        proof {
                            assert(first_non_view(m, t, steps + 1));
                            lemma_first_non_view_unique(m, t, fuel, steps + 1);
                            assert forall|k: nat| first_non_view(m, t, k) implies None::<LaunchProfileId>
                                == launcher_at(m, #[trigger] up(m, t, k)) by {
                                lemma_first_non_view_unique(m, t, k, steps + 1);
                            }
                        }
                        return None;
                    },
                }
            } else {
                proof {
                    assert(first_non_view(m, t, steps));
                    lemma_first_non_view_unique(m, t, fuel, steps);
                }
                let r = match cur {
                    DesktopTarget::Launcher(l) => Some(l),
                    DesktopTarget::Instance(i) => Some(self.launcher_of_instance(i)),
                    _ => None,
                };
                proof {
                    assert forall|k: nat| first_non_view(m, t, k) implies r == launcher_at(m, #[trigger] up(m, t, k)) by {
                        lemma_first_non_view_unique(m, t, k, steps);
                    }
                }
                return r;
            }
        }
    }

    /// The project a target belongs to.
    pub fn project_of_target(&self, target: &DesktopTarget) -> (r: Option<ProjectId>)
        requires
            self.wf(),
            exists|k: nat|
                first_non_view(self@, *target, k) && project_defined(self@, #[trigger] up(self@, *target, k)),
        ensures
            forall|k: nat| first_non_view(self@, *target, k) ==> r == project_at(self@, #[trigger] up(self@, *target, k)),
    {
        let ghost m = self@;
        let ghost t = *target;
        let ghost fuel = choose|k: nat| first_non_view(m, t, k) && project_defined(m, #[trigger] up(m, t, k));
        let ghost mut steps: nat = 0;
        let mut cur = *target;
        loop
            invariant
                self.wf(),
                m == self@,
                t == *target,
                up(m, t, steps) == Some(cur),
                forall|j: nat| j < steps ==> #[trigger] is_view_at(m, t, j),
                steps <= fuel,
                first_non_view(m, t, fuel),
                project_defined(m, up(m, t, fuel)),
            decreases fuel - steps,
        {
            if let DesktopTarget::View(_) = cur {
                assert(is_view_at(m, t, steps));
                assert(steps < fuel);
                assert(up(m, t, steps + 1) == parent_of(m, cur));
                match self.parent(&cur) {
                    Some(p) => {
                        cur = *p;
                        proof {
                            steps = steps + 1;
                        }
                    },
                    None => {
                        proof {
                            assert(first_non_view(m, t, steps + 1));
                            assert forall|k: nat| first_non_view(m, t, k) implies None::<ProjectId>
                                == project_at(m, #[trigger] up(m, t, k)) by {
                                lemma_first_non_view_unique(m, t, k, steps + 1);
                            }
                        }
                        return None;
                    },
                }
            } else {
                proof {
                    assert(first_non_view(m, t, steps));
                    lemma_first_non_view_unique(m, t, fuel, steps);
                }
                let r = match cur {
                    DesktopTarget::Project(p) => Some(p),
                    DesktopTarget::ProjectHeader(p) => Some(p),
                    DesktopTarget::ProjectMatrix(p) => Some(p),
                    DesktopTarget::Launcher(l) => Some(self.project_of_launcher(l)),
                    DesktopTarget::Instance(i) => {
                        let l = self.launcher_of_instance(i);
                        Some(self.project_of_launcher(l))
                    },
                    _ => None,
                };
                proof {
                    assert forall|k: nat| first_non_view(m, t, k) implies r == project_at(m, #[trigger] up(m, t, k)) by {
                        lemma_first_non_view_unique(m, t, k, steps);
                    }
                }
                return r;
            }
        }
    }

    /// The launchers in a project's matrix, in their order.
    pub fn matrix_launchers(&self, project_id: ProjectId) -> (r: Vec<LaunchProfileId>)
        requires
            self.wf(),
            all_launchers(spec_nested(self@, DesktopTarget::ProjectMatrix(project_id))),
        ensures
            r@ == launcher_ids(spec_nested(self@, DesktopTarget::ProjectMatrix(project_id))),
            r@.len() == spec_nested(self@, DesktopTarget::ProjectMatrix(project_id)).len(),
            forall|i: int|
                0 <= i < r@.len() ==> spec_nested(self@, DesktopTarget::ProjectMatrix(project_id))[i]
                    == DesktopTarget::Launcher(#[trigger] r@[i]),
    {
        let nested = self.get_nested(&DesktopTarget::ProjectMatrix(project_id));
        let mut r: Vec<LaunchProfileId> = Vec::new();
        let mut i: usize = 0;
        while i < nested.len()
            invariant
                i <= nested@.len(),
                all_launchers(nested@),
                r@.len() == i,
                forall|j: int| 0 <= j < i ==> nested@[j] == DesktopTarget::Launcher(#[trigger] r@[j]),
            decreases nested@.len() - i,
        {
            assert(nested@[i as int] is Launcher);
            match nested[i] {
                DesktopTarget::Launcher(l) => r.push(l),
                _ => {},
            }
            i += 1;
        }
        assert(r@ =~= launcher_ids(nested@));
        r
    }

    /// The instances of a launcher, in their order.
    pub fn launcher_instances(&self, launcher_id: LaunchProfileId) -> (r: Vec<InstanceId>)
        requires
            self.wf(),
            all_instances(spec_nested(self@, DesktopTarget::Launcher(launcher_id))),
        ensures
            r@ == instance_ids(spec_nested(self@, DesktopTarget::Launcher(launcher_id))),
            r@.len() == spec_nested(self@, DesktopTarget::Launcher(launcher_id)).len(),
            forall|i: int|
                0 <= i < r@.len() ==> spec_nested(self@, DesktopTarget::Launcher(launcher_id))[i]
                    == DesktopTarget::Instance(#[trigger] r@[i]),
    {
        let nested = self.get_nested(&DesktopTarget::Launcher(launcher_id));
        let mut r: Vec<InstanceId> = Vec::new();
        let mut i: usize = 0;
        while i < nested.len()
            invariant
                i <= nested@.len(),
                all_instances(nested@),
                r@.len() == i,
                forall|j: int| 0 <= j < i ==> nested@[j] == DesktopTarget::Instance(#[trigger] r@[j]),
            decreases nested@.len() - i,
        {
            assert(nested@[i as int] is Instance);
            match nested[i] {
                DesktopTarget::Instance(x) => r.push(x),
                _ => {},
            }
            i += 1;
        }
        assert(r@ =~= instance_ids(nested@));
        r
    }
}

} // verus!
