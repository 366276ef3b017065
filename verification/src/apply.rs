//! Applying planned changes to the desktop's aggregates.
use vstd::prelude::*;

use crate::change::{ProjectChange, TopologyChange};
use crate::event_router::{removal_refusal, EventRouter, RouterError, RouterView};
use crate::focus_path::parent_of;
use crate::id_map::MapError;
use crate::ids::{DesktopTarget, LaunchProfileId};
use crate::matrix_positions::{spec_available, spec_remove_slot, MatrixError, MatrixPlacement};
use crate::ordered_hierarchy::{
    add_refused, nested_len, spec_add, spec_add_all, spec_insert_at, spec_nested, spec_remove, with_node, HierarchyError,
    HierarchyView,
};
use crate::planning::{slots_cover, Aggregates};
use crate::projects::LauncherState;
use crate::topology::{launcher_ids, matrix_parent, DesktopTopology};

verus! {

/// Why applying a change failed.
#[derive(Debug, Clone, Copy, PartialEq, Eq, Structural)]
pub enum ApplyError {
    Registry(MapError),
    Matrix(MatrixError),
    Hierarchy(HierarchyError),
    Router(RouterError),
}

/// The project change can be applied without a panic.
pub open spec fn project_change_applicable(a: &Aggregates, change: ProjectChange) -> bool {
    match change {
        ProjectChange::AddLauncher { project, .. } => a.projects@.contains_key(project),
        ProjectChange::MoveLauncher { launcher, .. } => {
            &&& matrix_parent(a.hierarchy@, launcher) is Some
            &&& a.matrix_positions@.contains_key(launcher)
        },
        ProjectChange::RemoveSlot { project, .. } => slots_cover(a.hierarchy@, a.matrix_positions@, project),
        _ => true,
    }
}

/// The state a launcher added with `profile` starts in: nothing anchors its focus yet.
pub open spec fn initial_launcher_state(name: String, profile_mode: crate::projects::LauncherMode) -> LauncherState {
    LauncherState { name, mode: profile_mode, focus_anchor_instance: None }
}

/// What applying a project change returns: the target to measure again, or why it failed.
pub open spec fn project_change_result(a: &Aggregates, change: ProjectChange) -> Result<Option<DesktopTarget>, ApplyError> {
    match change {
        ProjectChange::AddProject { id, .. } => if a.projects@.contains_key(id) {
            Err(ApplyError::Registry(MapError::KeyExists))
        } else {
            Ok(None)
        },
        ProjectChange::RemoveProject(p) => if a.projects@.contains_key(p) {
            Ok(None)
        } else {
            Err(ApplyError::Registry(MapError::KeyMissing))
        },
        ProjectChange::AddLauncher { project, id, placement, .. } => {
            let launchers = launcher_ids(spec_nested(a.hierarchy@, DesktopTarget::ProjectMatrix(project)));
            if !spec_available(a.matrix_positions@, launchers, placement) {
                Err(ApplyError::Matrix(MatrixError::SlotOccupied { column: placement.column, row: placement.row }))
            } else if a.matrix_positions@.contains_key(id) {
                Err(ApplyError::Matrix(MatrixError::Positions(MapError::KeyExists)))
            } else if a.launchers@.contains_key(id) {
                Err(ApplyError::Registry(MapError::KeyExists))
            } else {
                Ok(None)
            }
        },
        ProjectChange::MoveLauncher { launcher, .. } => Ok(
            Some(DesktopTarget::ProjectMatrix(matrix_parent(a.hierarchy@, launcher)->0)),
        ),
        ProjectChange::RemoveLauncher(l) => if !a.launchers@.contains_key(l) {
            Err(ApplyError::Registry(MapError::KeyMissing))
        } else if a.matrix_positions@.contains_key(l) {
            Ok(None)
        } else {
            Err(ApplyError::Registry(MapError::KeyMissing))
        },
        ProjectChange::RemoveSlot { project, .. } => Ok(Some(DesktopTarget::ProjectMatrix(project))),
        ProjectChange::SetStartupProfile(_) => Ok(None),
    }
}

/// How applying a project change takes the aggregates from `a` to `b`. The topology is left
/// alone.
pub open spec fn project_change_applied(a: &Aggregates, b: &Aggregates, change: ProjectChange) -> bool {
    &&& b.hierarchy@ == a.hierarchy@
    &&& match change {
        ProjectChange::AddProject { id, properties } => {
            &&& b.projects@ == a.projects@.insert(id, properties)
            &&& b.matrix_positions@ == a.matrix_positions@
            &&& b.launchers@ == a.launchers@
            &&& b.startup_profile == a.startup_profile
        },
        ProjectChange::RemoveProject(p) => {
            &&& b.projects@ == a.projects@.remove(p)
            &&& b.matrix_positions@ == a.matrix_positions@
            &&& b.launchers@ == a.launchers@
            &&& b.startup_profile == a.startup_profile
        },
        ProjectChange::AddLauncher { project, id, profile, placement } => {
            let launchers = launcher_ids(spec_nested(a.hierarchy@, DesktopTarget::ProjectMatrix(project)));
            &&& b.projects@ == a.projects@
            &&& b.startup_profile == a.startup_profile
            &&& if !spec_available(a.matrix_positions@, launchers, placement) {
                &&& b.matrix_positions@ == a.matrix_positions@
                &&& b.launchers@ == a.launchers@
            } else if a.matrix_positions@.contains_key(id) {
                &&& b.matrix_positions@ == a.matrix_positions@.insert(id, placement)
                &&& b.launchers@ == a.launchers@
            } else {
                &&& b.matrix_positions@ == a.matrix_positions@.insert(id, placement)
                &&& b.launchers@ == a.launchers@.insert(id, initial_launcher_state(profile.name, profile.mode))
            }
        },
        ProjectChange::MoveLauncher { launcher, placement } => {
            &&& b.matrix_positions@ == a.matrix_positions@.insert(launcher, placement)
            &&& b.projects@ == a.projects@
            &&& b.launchers@ == a.launchers@
            &&& b.startup_profile == a.startup_profile
        },
        ProjectChange::RemoveLauncher(l) => {
            &&& b.projects@ == a.projects@
            &&& b.launchers@ == a.launchers@.remove(l)
            &&& b.startup_profile == a.startup_profile
            &&& b.matrix_positions@ == if a.launchers@.contains_key(l) {
                a.matrix_positions@.remove(l)
            } else {
                a.matrix_positions@
            }
        },
        ProjectChange::RemoveSlot { project, placement, .. } => {
            &&& b.matrix_positions@ == spec_remove_slot(
                a.matrix_positions@,
                launcher_ids(spec_nested(a.hierarchy@, DesktopTarget::ProjectMatrix(project))),
                placement,
            )
            &&& b.projects@ == a.projects@
            &&& b.launchers@ == a.launchers@
            &&& b.startup_profile == a.startup_profile
        },
        ProjectChange::SetStartupProfile(x) => {
            &&& b.startup_profile == x
            &&& b.matrix_positions@ == a.matrix_positions@
            &&& b.projects@ == a.projects@
            &&& b.launchers@ == a.launchers@
        },
    }
}

impl Aggregates {
    /// Apply a project change. Returns the target whose layout must be measured again, if any.
    pub fn apply_project_change(&mut self, change: ProjectChange) -> (r: Result<Option<DesktopTarget>, ApplyError>)
        requires
            old(self).wf(),
            project_change_applicable(old(self), change),
        ensures
            final(self).wf(),
            r == project_change_result(old(self), change),
            project_change_applied(old(self), final(self), change),
    {
        match change {
            ProjectChange::AddProject { id, properties } => {
                match self.projects.insert(id, properties) {
                    Ok(()) => Ok(None),
                    Err(e) => Err(ApplyError::Registry(e)),
                }
            },
            ProjectChange::RemoveProject(project) => {
                match self.projects.remove(&project) {
                    Ok(()) => Ok(None),
                    Err(e) => Err(ApplyError::Registry(e)),
                }
            },
            ProjectChange::AddLauncher { project, id, profile, placement } => {
                proof {
                    assert(crate::topology::all_launchers(spec_nested(self.hierarchy@, DesktopTarget::ProjectMatrix(project))));
                }
                let launchers = self.hierarchy.matrix_launchers(project);
                match self.matrix_positions.place(launchers.as_slice(), id, placement) {
                    Ok(()) => {},
                    Err(e) => return Err(ApplyError::Matrix(e)),
                }
                let state = LauncherState { name: profile.name, mode: profile.mode, focus_anchor_instance: None };
                match self.launchers.insert(id, state) {
                    Ok(()) => Ok(None),
                    Err(e) => Err(ApplyError::Registry(e)),
                }
            },
            ProjectChange::MoveLauncher { launcher, placement } => {
                let project = self.hierarchy.project_of_launcher(launcher);
                self.matrix_positions.set(launcher, placement);
                Ok(Some(DesktopTarget::ProjectMatrix(project)))
            },
            ProjectChange::RemoveLauncher(launcher) => {
                match self.launchers.remove(&launcher) {
                    Ok(()) => {},
                    Err(e) => return Err(ApplyError::Registry(e)),
                }
                match self.matrix_positions.remove(&launcher) {
                    Ok(()) => Ok(None),
                    Err(e) => Err(ApplyError::Registry(e)),
                }
            },
            ProjectChange::RemoveSlot { project, placement, shifting_policy } => {
                proof {
                    assert(crate::topology::all_launchers(spec_nested(self.hierarchy@, DesktopTarget::ProjectMatrix(project))));
                }
                let launchers = self.hierarchy.matrix_launchers(project);
                self.matrix_positions.remove_slot(launchers.as_slice(), placement, shifting_policy);
                Ok(Some(DesktopTarget::ProjectMatrix(project)))
            },
            ProjectChange::SetStartupProfile(launch_profile_id) => {
                self.startup_profile = launch_profile_id;
                Ok(None)
            },
        }
    }
}

/// The topology change can be applied without a panic: a target that the router lets go of has
/// a parent.
pub open spec fn topology_change_applicable(
    router: RouterView<DesktopTarget>,
    m: HierarchyView<DesktopTarget>,
    change: TopologyChange,
) -> bool {
    match change {
        TopologyChange::Remove(t) => removal_refusal(router, t) is None ==> parent_of(m, t) is Some,
        _ => true,
    }
}

/// The error of the hierarchy, as an error of applying a change.
pub open spec fn hierarchy_err<T>(e: HierarchyError) -> Result<T, ApplyError> {
    Err(ApplyError::Hierarchy(e))
}

/// Remove `target` and what is nested under it, once the router no longer refers to it. Returns
/// the parent it was nested under, whose layout must be measured again.
pub fn remove_target(router: &EventRouter<DesktopTarget>, hierarchy: &mut DesktopTopology, target: &DesktopTarget) -> (r:
    Result<DesktopTarget, ApplyError>)
    requires
        old(hierarchy).wf(),
        removal_refusal(router@, *target) is None ==> parent_of(old(hierarchy)@, *target) is Some,
    ensures
        final(hierarchy).wf(),
        match removal_refusal(router@, *target) {
            Some(e) => r == Err::<DesktopTarget, ApplyError>(ApplyError::Router(e)) && final(hierarchy)@ == old(hierarchy)@,
            None => r == Ok::<DesktopTarget, ApplyError>(parent_of(old(hierarchy)@, *target)->0) && final(hierarchy)@
                == spec_remove(old(hierarchy)@, *target),
        },
{
    match router.notify_removed(target) {
        Ok(()) => {},
        Err(e) => return Err(ApplyError::Router(e)),
    }
    let parent = match hierarchy.parent(target) {
        Some(p) => *p,
        None => {
            proof {
                assert(false);
            }
            return Err(ApplyError::Hierarchy(HierarchyError::NotFound));
        },
    };
    match hierarchy.remove(target) {
        Ok(()) => Ok(parent),
        Err(e) => Err(ApplyError::Hierarchy(e)),
    }
}

/// The position of `id` in `s`.
fn position_of(s: &[DesktopTarget], id: &DesktopTarget) -> (r: Option<usize>)
    ensures
        match r {
            Some(i) => i < s@.len() && s@[i as int] == *id && forall|j: int| 0 <= j < i ==> s@[j] != *id,
            None => !s@.contains(*id),
        },
{
    let mut i: usize = 0;
    while i < s.len()
        invariant
            i <= s@.len(),
            forall|j: int| 0 <= j < i ==> s@[j] != *id,
        decreases s@.len() - i,
    {
        if s[i] == *id {
            return Some(i);
        }
        i += 1;
    }
    None
}

/// What applying a topology change returns: the parent the change happened under, or why it
/// failed.
pub open spec fn topology_result(
    router: RouterView<DesktopTarget>,
    m: HierarchyView<DesktopTarget>,
    change: TopologyChange,
) -> Result<DesktopTarget, ApplyError> {
    match change {
        TopologyChange::Add { what, under, after: None } => if add_refused(m, what) {
            hierarchy_err(HierarchyError::AlreadyNested)
        } else {
            Ok(under)
        },
        TopologyChange::Add { what, under, after: Some(a) } => match parent_of(m, a) {
            None => hierarchy_err(HierarchyError::NotFound),
            Some(_) => if add_refused(m, what) {
                hierarchy_err(HierarchyError::AlreadyNested)
            } else {
                Ok(under)
            },
        },
        TopologyChange::AddNested { what, under } => if spec_add_all(m, under, what@).1 {
            Ok(under)
        } else {
            hierarchy_err(HierarchyError::AlreadyNested)
        },
        TopologyChange::Insert { what, at_index, under } => {
            let len = nested_len(m, under);
            if at_index > len {
                hierarchy_err(HierarchyError::IndexOutOfBounds { index: at_index, len: len as usize })
            } else if add_refused(with_node(m, under), what) {
                hierarchy_err(HierarchyError::AlreadyNested)
            } else {
                Ok(under)
            }
        },
        TopologyChange::Remove(t) => match removal_refusal(router, t) {
            Some(e) => Err(ApplyError::Router(e)),
            None => Ok(parent_of(m, t)->0),
        },
    }
}

/// The topology after applying a change.
pub open spec fn topology_after(
    router: RouterView<DesktopTarget>,
    m: HierarchyView<DesktopTarget>,
    change: TopologyChange,
) -> HierarchyView<DesktopTarget> {
    match change {
        TopologyChange::Add { what, under, after: None } => if add_refused(m, what) {
            m
        } else {
            spec_add(m, under, what)
        },
        TopologyChange::Add { what, after: Some(a), .. } => match parent_of(m, a) {
            None => m,
            Some(p) => if add_refused(m, what) {
                m
            } else {
                spec_insert_at(m, p, spec_nested(m, p).index_of(a) + 1, what)
            },
        },
        TopologyChange::AddNested { what, under } => spec_add_all(m, under, what@).0,
        TopologyChange::Insert { what, at_index, under } => {
            let len = nested_len(m, under);
            if at_index > len || add_refused(with_node(m, under), what) {
                with_node(m, under)
            } else {
                spec_insert_at(m, under, at_index as int, what)
            }
        },
        TopologyChange::Remove(t) => match removal_refusal(router, t) {
            Some(_) => m,
            None => spec_remove(m, t),
        },
    }
}

/// Apply a topology change. Returns the target whose layout must be measured again: the parent
/// the change happened under.
///
/// `Add` with `after` nests `what` right behind `after`, under the parent of `after`. `Remove`
/// is refused while the router still refers to the removed target; the caller moves the focus
/// away first.
pub fn apply_topology_change(
    router: &EventRouter<DesktopTarget>,
    hierarchy: &mut DesktopTopology,
    change: TopologyChange,
) -> (r: Result<DesktopTarget, ApplyError>)
    requires
        old(hierarchy).wf(),
        topology_change_applicable(router@, old(hierarchy)@, change),
    ensures
        final(hierarchy).wf(),
        r == topology_result(router@, old(hierarchy)@, change),
        final(hierarchy)@ == topology_after(router@, old(hierarchy)@, change),
{
    match change {
        TopologyChange::Add { what, under, after } => {
            match after {
                None => match hierarchy.add(under, what) {
                    Ok(()) => Ok(under),
                    Err(e) => Err(ApplyError::Hierarchy(e)),
                },
                Some(a) => {
                    let parent = match hierarchy.parent(&a) {
                        Some(p) => *p,
                        None => return Err(ApplyError::Hierarchy(HierarchyError::NotFound)),
                    };
                    let ghost m = hierarchy@;
                    let siblings = hierarchy.get_nested(&parent);
                    let count = siblings.len();
                    let index = match position_of(siblings, &a) {
                        Some(i) => i,
                        None => {
                            proof {
                                hierarchy.lemma_links();
                                assert(m[parent].nested.contains(a));
                            }
                            return Err(ApplyError::Hierarchy(HierarchyError::NotFound));
                        },
                    };
                    proof {
                        hierarchy.lemma_links();
                        assert(m[parent].nested.no_duplicates());
                        crate::id_map::lemma_index_of_unique(siblings@, index as int);
                        assert(index < count);
                    }
                    match hierarchy.insert_at(parent, index + 1, what) {
                        Ok(()) => Ok(under),
                        Err(e) => Err(ApplyError::Hierarchy(e)),
                    }
                },
            }
        },
        TopologyChange::AddNested { what, under } => match hierarchy.add_nested(under, what) {
            Ok(()) => Ok(under),
            Err(e) => Err(ApplyError::Hierarchy(e)),
        },
        TopologyChange::Insert { what, at_index, under } => match hierarchy.insert_at(under, at_index, what) {
            Ok(()) => Ok(under),
            Err(e) => Err(ApplyError::Hierarchy(e)),
        },
        TopologyChange::Remove(target) => remove_target(router, hierarchy, &target),
    }
}

} // verus!
