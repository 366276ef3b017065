//! Planning commands into changes, without mutating anything.
use vstd::prelude::*;

use crate::change::{
    append_changes, push_change, set_focus, spec_set_focus, views, ChangeView, DesktopChange, DesktopCommand,
    ProjectChange, ProjectCommand, TopologyChange, TopologyChangeView, ZoomChange,
};
use crate::desktop_system::{depth_at, depth_level, focus_depth_from_target, FocusDepth, KeyboardFocusReason};
use crate::focus_path::{parent_of, resolvable, spec_path_of};
use crate::hierarchy_focus::{deref_opt, last_instance, spec_replacement_focus};
use crate::id_map::IdMap;
use crate::ids::{DesktopTarget, InstanceId, LaunchProfileId, ProjectId, ViewId};
use crate::matrix_positions::{first_at, spec_shifted, MatrixError, MatrixPlacement, MatrixPositions, MoveDirection, RemoveSlotShiftingPolicy};
use crate::navigation::{
    launcher_removal_focus, launcher_removal_target, navigation_plan_spec, plan_navigation_candidate, project_removal_focus,
    project_removal_target, Direction, NavigationControl, NavigationPlan,
};
use crate::ordered_hierarchy::{spec_nested, HierarchyView};
use crate::projects::{LauncherState, ProjectProperties};
use crate::topology::{desktop_shape, instance_ids, launcher_ids, launcher_parent, matrix_parent, DesktopTopology};

verus! {

/// The state the desktop's logic works on: the topology, the launcher slots, what navigation
/// reads of each launcher, and the profile started at startup.
pub struct Aggregates {
    pub hierarchy: DesktopTopology,
    pub matrix_positions: MatrixPositions,
    pub projects: IdMap<ProjectId, ProjectProperties>,
    pub launchers: IdMap<LaunchProfileId, LauncherState>,
    pub startup_profile: Option<LaunchProfileId>,
}

impl Aggregates {
    pub open spec fn wf(&self) -> bool {
        &&& self.hierarchy.wf()
        &&& self.matrix_positions.wf()
        &&& self.projects.wf()
        &&& self.launchers.wf()
        &&& desktop_shape(self.hierarchy@)
    }

    /// The view of an instance: the one target nested under it, when that is a view.
    pub fn view_of_instance(&self, instance: InstanceId) -> (r: Option<ViewId>)
        requires
            self.hierarchy.wf(),
        ensures
            r == view_under(spec_nested(self.hierarchy@, DesktopTarget::Instance(instance))),
    {
        let nested = self.hierarchy.get_nested(&DesktopTarget::Instance(instance));
        if nested.len() == 1 {
            match &nested[0] {
                DesktopTarget::View(view) => Some(*view),
                _ => None,
            }
        } else {
            None
        }
    }
}

/// The view among `nested` when it holds exactly one target and that is a view.
pub open spec fn view_under(nested: Seq<DesktopTarget>) -> Option<ViewId> {
    if nested.len() == 1 && nested[0] is View {
        Some(nested[0]->View_0)
    } else {
        None
    }
}

/// Every launcher in the matrix of `project` has a slot.
pub open spec fn slots_cover(
    m: HierarchyView<DesktopTarget>,
    positions: Map<LaunchProfileId, MatrixPlacement>,
    project: ProjectId,
) -> bool {
    let ids = launcher_ids(spec_nested(m, DesktopTarget::ProjectMatrix(project)));
    forall|i: int| 0 <= i < ids.len() ==> positions.contains_key(#[trigger] ids[i])
}

/// The changes that remove the instances `ids` of `launcher`, one after the other.
pub open spec fn instance_removals(launcher: LaunchProfileId, ids: Seq<InstanceId>) -> Seq<ChangeView>
    decreases ids.len(),
{
    if ids.len() == 0 {
        Seq::empty()
    } else {
        let i = ids.last();
        instance_removals(launcher, ids.drop_last()) + seq![
            ChangeView::Topology(TopologyChangeView::Remove(DesktopTarget::Instance(i))),
            ChangeView::HideInstance { launcher, instance: i },
            ChangeView::ShutdownInstance(i),
        ]
    }
}

/// The changes that remove a launcher with its instances, and with `policy`, its slot.
pub open spec fn spec_remove_launcher(
    m: HierarchyView<DesktopTarget>,
    positions: Map<LaunchProfileId, MatrixPlacement>,
    project: ProjectId,
    launcher: LaunchProfileId,
    policy: Option<RemoveSlotShiftingPolicy>,
) -> Seq<ChangeView> {
    instance_removals(launcher, instance_ids(spec_nested(m, DesktopTarget::Launcher(launcher)))) + seq![
        ChangeView::Topology(TopologyChangeView::Remove(DesktopTarget::Launcher(launcher))),
        ChangeView::Project(ProjectChange::RemoveLauncher(launcher)),
    ] + match policy {
        Some(shifting_policy) => seq![
            ChangeView::Project(
                ProjectChange::RemoveSlot { project, placement: positions[launcher], shifting_policy },
            ),
        ],
        None => Seq::empty(),
    }
}

/// The changes that remove the launchers `ids` of `project`, one after the other.
pub open spec fn launcher_removals(
    m: HierarchyView<DesktopTarget>,
    positions: Map<LaunchProfileId, MatrixPlacement>,
    project: ProjectId,
    ids: Seq<LaunchProfileId>,
) -> Seq<ChangeView>
    decreases ids.len(),
{
    if ids.len() == 0 {
        Seq::empty()
    } else {
        launcher_removals(m, positions, project, ids.drop_last()) + spec_remove_launcher(
            m,
            positions,
            project,
            ids.last(),
            None,
        )
    }
}

/// The changes that remove a project with its launchers and their instances.
pub open spec fn spec_remove_project(
    m: HierarchyView<DesktopTarget>,
    positions: Map<LaunchProfileId, MatrixPlacement>,
    project: ProjectId,
) -> Seq<ChangeView> {
    launcher_removals(m, positions, project, launcher_ids(spec_nested(m, DesktopTarget::ProjectMatrix(project)))) + seq![
        ChangeView::Project(ProjectChange::RemoveProject(project)),
        ChangeView::Topology(TopologyChangeView::Remove(DesktopTarget::Project(project))),
    ]
}

/// The focus change before a project is removed: when it holds the keyboard focus, the focus
/// moves to the project after it (or the desktop).
pub open spec fn spec_project_removal_focus(
    m: HierarchyView<DesktopTarget>,
    focus: Option<DesktopTarget>,
    project: ProjectId,
) -> Seq<ChangeView> {
    if spec_path_of(m, focus).contains(DesktopTarget::Project(project)) {
        spec_set_focus(Some(project_removal_target(m, project)), KeyboardFocusReason::InputTransition)
    } else {
        Seq::empty()
    }
}

/// Removing `project` is planned without a panic: when it holds the focus, it is one of the
/// desktop's projects, and its launchers have slots.
pub open spec fn project_removable(
    m: HierarchyView<DesktopTarget>,
    positions: Map<LaunchProfileId, MatrixPlacement>,
    focus: Option<DesktopTarget>,
    project: ProjectId,
) -> bool {
    &&& resolvable(m, focus)
    &&& spec_path_of(m, focus).contains(DesktopTarget::Project(project)) ==> spec_nested(m, DesktopTarget::Desktop).contains(
        DesktopTarget::Project(project),
    )
    &&& slots_cover(m, positions, project)
}

/// The moves that shift the launchers of `s` to their new slots.
pub open spec fn launcher_moves(s: Seq<(LaunchProfileId, MatrixPlacement)>) -> Seq<ChangeView> {
    Seq::new(
        s.len(),
        |i: int| ChangeView::Project(ProjectChange::MoveLauncher { launcher: s[i].0, placement: s[i].1 }),
    )
}

/// The changes of adding a launcher to a project's matrix (after a shift that makes room).
pub open spec fn launcher_additions(command: ProjectCommand) -> Seq<ChangeView> {
    match command {
        ProjectCommand::AddLauncher { project, id, profile, placement } => seq![
            ChangeView::Project(ProjectChange::AddLauncher { project, id, profile, placement }),
            ChangeView::Topology(
                TopologyChangeView::Add {
                    what: DesktopTarget::Launcher(id),
                    under: DesktopTarget::ProjectMatrix(project),
                    after: None,
                },
            ),
        ],
        _ => Seq::empty(),
    }
}

/// The project command can be planned without a panic.
pub open spec fn project_command_plannable(
    m: HierarchyView<DesktopTarget>,
    positions: Map<LaunchProfileId, MatrixPlacement>,
    focus: Option<DesktopTarget>,
    command: ProjectCommand,
) -> bool {
    match command {
        ProjectCommand::AddProject { .. } => true,
        ProjectCommand::RemoveProject(p) => project_removable(m, positions, focus, p),
        ProjectCommand::AddLauncher { project, .. } => slots_cover(m, positions, project),
        ProjectCommand::RemoveLauncher(l) => match matrix_parent(m, l) {
            Some(p) => {
                &&& project_removable(m, positions, focus, p)
                &&& positions.contains_key(l)
            },
            None => false,
        },
        ProjectCommand::SetStartupProfile(_) => true,
    }
}

/// `r` is the plan of a project command.
pub open spec fn project_plan_spec(
    m: HierarchyView<DesktopTarget>,
    positions: Map<LaunchProfileId, MatrixPlacement>,
    focus: Option<DesktopTarget>,
    command: ProjectCommand,
    r: Result<Vec<DesktopChange>, MatrixError>,
) -> bool {
    match command {
        ProjectCommand::AddProject { id, properties, after } => r matches Ok(v) && views(v@) == seq![
            ChangeView::Topology(
                TopologyChangeView::Add {
                    what: DesktopTarget::Project(id),
                    under: DesktopTarget::Desktop,
                    after: match after {
                        Some(a) => Some(DesktopTarget::Project(a)),
                        None => None,
                    },
                },
            ),
            ChangeView::Topology(
                TopologyChangeView::AddNested {
                    what: seq![DesktopTarget::ProjectHeader(id), DesktopTarget::ProjectMatrix(id)],
                    under: DesktopTarget::Project(id),
                },
            ),
            ChangeView::Project(ProjectChange::AddProject { id, properties }),
        ],
        ProjectCommand::RemoveProject(p) => r matches Ok(v) && views(v@) == spec_project_removal_focus(m, focus, p)
            + spec_remove_project(m, positions, p),
        ProjectCommand::AddLauncher { project, id, profile, placement } => {
            let ids = launcher_ids(spec_nested(m, DesktopTarget::ProjectMatrix(project)));
            match first_at(positions, ids, placement) {
                Some(occupant) => match spec_shifted(positions, ids, occupant, MoveDirection::Right) {
                    None => r == Err::<Vec<DesktopChange>, MatrixError>(MatrixError::Boundary),
                    Some(s) => r matches Ok(v) && views(v@) == launcher_moves(s) + launcher_additions(command),
                },
                None => r matches Ok(v) && views(v@) == launcher_additions(command),
            }
        },
        ProjectCommand::RemoveLauncher(l) => {
            let p = matrix_parent(m, l)->0;
            if spec_nested(m, DesktopTarget::ProjectMatrix(p)).len() == 1 {
                r matches Ok(v) && views(v@) == spec_project_removal_focus(m, focus, p) + spec_remove_project(
                    m,
                    positions,
                    p,
                )
            } else if spec_path_of(m, focus).contains(DesktopTarget::Launcher(l)) {
                exists|t: DesktopTarget|
                    #[trigger] launcher_removal_target(m, positions, l, t) && (r matches Ok(v) && views(v@)
                        == spec_set_focus(Some(t), KeyboardFocusReason::InputTransition) + spec_remove_launcher(
                        m,
                        positions,
                        p,
                        l,
                        Some(RemoveSlotShiftingPolicy::ShiftLeft),
                    ))
            } else {
                r matches Ok(v) && views(v@) == spec_remove_launcher(
                    m,
                    positions,
                    p,
                    l,
                    Some(RemoveSlotShiftingPolicy::ShiftLeft),
                )
            }
        },
        ProjectCommand::SetStartupProfile(x) => r matches Ok(v) && views(v@) == seq![
            ChangeView::Project(ProjectChange::SetStartupProfile(x)),
        ],
    }
}

/// The position at which a new instance is inserted under `launcher`: right after the instance it
/// originates from when that one is there, else at the end; first when it originates from none.
pub open spec fn spec_insertion_position(m: HierarchyView<DesktopTarget>, launcher: LaunchProfileId, originator: Option<InstanceId>) -> usize {
    match originator {
        None => 0,
        Some(o) => {
            let nested = spec_nested(m, DesktopTarget::Launcher(launcher));
            if nested.contains(DesktopTarget::Instance(o)) {
                (nested.index_of(DesktopTarget::Instance(o)) + 1) as usize
            } else {
                nested.len() as usize
            }
        },
    }
}

/// The changes that start an instance under a launcher.
pub open spec fn spec_start_instance(
    m: HierarchyView<DesktopTarget>,
    focus: Option<DesktopTarget>,
    launcher: LaunchProfileId,
    instance: InstanceId,
    spawn: bool,
) -> Seq<ChangeView> {
    let spawning = if spawn {
        seq![ChangeView::SpawnInstance(instance)]
    } else {
        Seq::empty()
    };
    spawning + seq![
        ChangeView::PresentInstance { launcher, instance },
        ChangeView::Topology(
            TopologyChangeView::Insert {
                what: DesktopTarget::Instance(instance),
                at_index: spec_insertion_position(m, launcher, last_instance(spec_path_of(m, focus))),
                under: DesktopTarget::Launcher(launcher),
            },
        ),
    ] + spec_set_focus(Some(DesktopTarget::Instance(instance)), KeyboardFocusReason::PresentInstance) + seq![
        ChangeView::CommitFocusDepth(FocusDepth::Instance),
    ]
}

/// The changes that stop an instance: first a replacement focus when it is on the focused path.
pub open spec fn spec_stop_instance(m: HierarchyView<DesktopTarget>, focus: Option<DesktopTarget>, instance: InstanceId) -> Seq<
    ChangeView,
> {
    let replacement = match focus {
        Some(_) => spec_replacement_focus(m, focus, instance),
        None => None,
    };
    let refocus = match replacement {
        Some(t) => spec_set_focus(Some(t), KeyboardFocusReason::StopInstanceReplacement),
        None => Seq::empty(),
    };
    refocus + seq![
        ChangeView::Topology(TopologyChangeView::Remove(DesktopTarget::Instance(instance))),
        ChangeView::HideInstance { launcher: launcher_parent(m, instance)->0, instance },
        ChangeView::ShutdownInstance(instance),
        ChangeView::CommitFocusDepth(FocusDepth::Instance),
    ]
}

/// The changes of a zoom step.
pub open spec fn spec_zoom(focus: Option<DesktopTarget>, depth: FocusDepth, zoom: ZoomChange) -> Seq<ChangeView> {
    let next = match zoom {
        ZoomChange::In => depth_at(depth_level(depth) - 1),
        ZoomChange::Out => depth_at(depth_level(depth) + 1),
        ZoomChange::Reset => match focus {
            Some(f) => {
                let level = crate::desktop_system::spec_focus_depth_of(f);
                if level != depth {
                    Some(level)
                } else {
                    None
                }
            },
            None => None,
        },
    };
    match next {
        Some(d) => seq![ChangeView::CommitFocusDepth(d)],
        None => Seq::empty(),
    }
}

/// `r` are the changes of a navigation step: focus the planned candidate and commit the column
/// affinity; nothing without a keyboard focus or a candidate.
pub open spec fn navigate_spec(
    a: &Aggregates,
    control: NavigationControl,
    focus: Option<DesktopTarget>,
    direction: Direction,
    r: Seq<ChangeView>,
) -> bool {
    match focus {
        None => r.len() == 0,
        Some(f) => exists|plan: Option<NavigationPlan>|
            #[trigger] navigation_plan_spec(
                a.hierarchy@,
                a.matrix_positions@,
                a.launchers@,
                control.affinity(),
                f,
                direction,
                plan,
            ) && r == match plan {
                Some(p) => spec_set_focus(Some(p.candidate), KeyboardFocusReason::Navigate) + seq![
                    ChangeView::CommitNavigationAffinity(p.column_affinity),
                ],
                None => Seq::empty(),
            },
    }
}

/// The changes that remove the instances of a launcher, its topology node and its project entry,
/// and with a shifting policy, its slot.
pub fn plan_remove_launcher(
    a: &Aggregates,
    project: ProjectId,
    launcher: LaunchProfileId,
    shifting_policy: Option<RemoveSlotShiftingPolicy>,
) -> (r: Vec<DesktopChange>)
    requires
        a.wf(),
        a.matrix_positions@.contains_key(launcher),
    ensures
        views(r@) == spec_remove_launcher(a.hierarchy@, a.matrix_positions@, project, launcher, shifting_policy),
{
    proof {
        assert(crate::topology::all_instances(spec_nested(a.hierarchy@, DesktopTarget::Launcher(launcher))));
    }
    let instances = a.hierarchy.launcher_instances(launcher);
    let mut changes: Vec<DesktopChange> = Vec::new();
    let mut i: usize = 0;
    proof {
        assert(views(changes@) =~= Seq::<ChangeView>::empty());
    }
    while i < instances.len()
        invariant
            i <= instances@.len(),
            views(changes@) == instance_removals(launcher, instances@.take(i as int)),
        decreases instances@.len() - i,
    {
        let instance = instances[i];
        proof {
            assert(instances@.take(i + 1).drop_last() =~= instances@.take(i as int));
        }
        push_change(&mut changes, DesktopChange::Topology(TopologyChange::Remove(DesktopTarget::Instance(instance))));
        push_change(&mut changes, DesktopChange::HideInstance { launcher, instance });
        push_change(&mut changes, DesktopChange::ShutdownInstance(instance));
        i += 1;
    }
    assert(instances@.take(instances@.len() as int) =~= instances@);
    let placement = match a.matrix_positions.get(&launcher) {
        Some(p) => *p,
        None => {
            proof {
                assert(false);
            }
            MatrixPlacement { column: 0, row: 0 }
        },
    };
    push_change(&mut changes, DesktopChange::Topology(TopologyChange::Remove(DesktopTarget::Launcher(launcher))));
    push_change(&mut changes, DesktopChange::Project(ProjectChange::RemoveLauncher(launcher)));
    if let Some(shifting_policy) = shifting_policy {
        push_change(
            &mut changes,
            DesktopChange::Project(ProjectChange::RemoveSlot { project, placement, shifting_policy }),
        );
    }
    changes
}

/// The changes that remove a project: its launchers one after the other, then the project.
pub fn plan_remove_project(a: &Aggregates, project: ProjectId) -> (r: Vec<DesktopChange>)
    requires
        a.wf(),
        slots_cover(a.hierarchy@, a.matrix_positions@, project),
    ensures
        views(r@) == spec_remove_project(a.hierarchy@, a.matrix_positions@, project),
{
    proof {
        assert(crate::topology::all_launchers(spec_nested(a.hierarchy@, DesktopTarget::ProjectMatrix(project))));
    }
    let launchers = a.hierarchy.matrix_launchers(project);
    let ghost m = a.hierarchy@;
    let ghost pos = a.matrix_positions@;
    let mut changes: Vec<DesktopChange> = Vec::new();
    proof {
        assert(views(changes@) =~= Seq::<ChangeView>::empty());
    }
    let mut i: usize = 0;
    while i < launchers.len()
        invariant
            a.wf(),
            m == a.hierarchy@,
            pos == a.matrix_positions@,
            i <= launchers@.len(),
            launchers@ == launcher_ids(spec_nested(m, DesktopTarget::ProjectMatrix(project))),
            slots_cover(m, pos, project),
            views(changes@) == launcher_removals(m, pos, project, launchers@.take(i as int)),
        decreases launchers@.len() - i,
    {
        let launcher = launchers[i];
        proof {
            assert(launchers@.take(i + 1).drop_last() =~= launchers@.take(i as int));
            assert(pos.contains_key(launchers@[i as int]));
        }
        let removal = plan_remove_launcher(a, project, launcher, None);
        append_changes(&mut changes, removal);
        i += 1;
    }
    assert(launchers@.take(launchers@.len() as int) =~= launchers@);
    push_change(&mut changes, DesktopChange::Project(ProjectChange::RemoveProject(project)));
    push_change(&mut changes, DesktopChange::Topology(TopologyChange::Remove(DesktopTarget::Project(project))));
    changes
}

/// The focus change before removing a project that holds the keyboard focus.
pub fn plan_project_removal_focus(a: &Aggregates, focus: Option<&DesktopTarget>, project: ProjectId) -> (r: Vec<DesktopChange>)
    requires
        a.wf(),
        resolvable(a.hierarchy@, deref_opt(focus)),
        spec_path_of(a.hierarchy@, deref_opt(focus)).contains(DesktopTarget::Project(project)) ==> spec_nested(
            a.hierarchy@,
            DesktopTarget::Desktop,
        ).contains(DesktopTarget::Project(project)),
    ensures
        views(r@) == spec_project_removal_focus(a.hierarchy@, deref_opt(focus), project),
{
    let project_target = DesktopTarget::Project(project);
    if a.hierarchy.path_contains_target(focus, &project_target) {
        let target = project_removal_focus(&a.hierarchy, project);
        return set_focus(Some(target), KeyboardFocusReason::InputTransition);
    }
    let r: Vec<DesktopChange> = Vec::new();
    assert(views(r@) =~= Seq::<ChangeView>::empty());
    r
}

/// The moves of a launcher shift that makes room at the slot of `launcher`.
fn launcher_shift_sequence(a: &Aggregates, project: ProjectId, launcher: LaunchProfileId, direction: MoveDirection) -> (r:
    Result<Vec<DesktopChange>, MatrixError>)
    requires
        a.wf(),
        slots_cover(a.hierarchy@, a.matrix_positions@, project),
        a.matrix_positions@.contains_key(launcher),
    ensures
        ({
            let ids = launcher_ids(spec_nested(a.hierarchy@, DesktopTarget::ProjectMatrix(project)));
            match spec_shifted(a.matrix_positions@, ids, launcher, direction) {
                None => r == Err::<Vec<DesktopChange>, MatrixError>(MatrixError::Boundary),
                Some(s) => r matches Ok(v) && views(v@) == launcher_moves(s),
            }
        }),
{
    proof {
        assert(crate::topology::all_launchers(spec_nested(a.hierarchy@, DesktopTarget::ProjectMatrix(project))));
    }
    let launchers = a.hierarchy.matrix_launchers(project);
    let shifted = match a.matrix_positions.shifted_launchers(launchers.as_slice(), launcher, direction) {
        Ok(s) => s,
        Err(e) => return Err(e),
    };
    let mut changes: Vec<DesktopChange> = Vec::new();
    let mut i: usize = 0;
    while i < shifted.len()
        invariant
            i <= shifted@.len(),
            views(changes@) =~= launcher_moves(shifted@.take(i as int)),
        decreases shifted@.len() - i,
    {
        let (l, placement) = shifted[i];
        push_change(&mut changes, DesktopChange::Project(ProjectChange::MoveLauncher { launcher: l, placement }));
        i += 1;
    }
    assert(shifted@.take(shifted@.len() as int) =~= shifted@);
    Ok(changes)
}

/// The first launcher of `project` that sits at `placement`.
fn occupant_at(a: &Aggregates, project: ProjectId, placement: MatrixPlacement) -> (r: Option<LaunchProfileId>)
    requires
        a.wf(),
        slots_cover(a.hierarchy@, a.matrix_positions@, project),
    ensures
        r == first_at(a.matrix_positions@, launcher_ids(spec_nested(a.hierarchy@, DesktopTarget::ProjectMatrix(project))), placement),
        r matches Some(l) ==> a.matrix_positions@.contains_key(l),
{
    proof {
        assert(crate::topology::all_launchers(spec_nested(a.hierarchy@, DesktopTarget::ProjectMatrix(project))));
    }
    let launchers = a.hierarchy.matrix_launchers(project);
    let ghost pos = a.matrix_positions@;
    let ghost ids = launchers@;
    let mut i: usize = 0;
    assert(ids.skip(0) =~= ids);
    while i < launchers.len()
        invariant
            a.wf(),
            pos == a.matrix_positions@,
            ids == launchers@,
            ids == launcher_ids(spec_nested(a.hierarchy@, DesktopTarget::ProjectMatrix(project))),
            i <= ids.len(),
            forall|j: int| 0 <= j < ids.len() ==> pos.contains_key(#[trigger] ids[j]),
            first_at(pos, ids, placement) == first_at(pos, ids.skip(i as int), placement),
        decreases ids.len() - i,
    {
        let l = launchers[i];
        proof {
            assert(ids.skip(i as int).len() > 0);
            assert(ids.skip(i as int)[0] == l);
            assert(ids.skip(i as int).drop_first() =~= ids.skip(i + 1));
            assert(pos.contains_key(ids[i as int]));
        }
        match a.matrix_positions.get(&l) {
            Some(p) => {
                if *p == placement {
                    return Some(l);
                }
            },
            None => {},
        }
        i += 1;
    }
    assert(ids.skip(ids.len() as int).len() == 0);
    None
}

/// Plan a project command.
pub fn plan_project(a: &Aggregates, focus: Option<&DesktopTarget>, command: ProjectCommand) -> (r: Result<Vec<DesktopChange>, MatrixError>)
    requires
        a.wf(),
        project_command_plannable(a.hierarchy@, a.matrix_positions@, deref_opt(focus), command),
    ensures
        project_plan_spec(a.hierarchy@, a.matrix_positions@, deref_opt(focus), command, r),
{
    let ghost cmd = command;
    let mut changes: Vec<DesktopChange> = Vec::new();
    proof {
        assert(views(changes@) =~= Seq::<ChangeView>::empty());
    }
    match command {
        ProjectCommand::AddProject { id, properties, after } => {
            let project_target = DesktopTarget::Project(id);
            let after_target = match after {
                Some(p) => Some(DesktopTarget::Project(p)),
                None => None,
            };
            push_change(
                &mut changes,
                DesktopChange::Topology(TopologyChange::Add { what: project_target, under: DesktopTarget::Desktop, after: after_target }),
            );
            let mut nested: Vec<DesktopTarget> = Vec::new();
            nested.push(DesktopTarget::ProjectHeader(id));
            nested.push(DesktopTarget::ProjectMatrix(id));
            push_change(&mut changes, DesktopChange::Topology(TopologyChange::AddNested { what: nested, under: project_target }));
            push_change(&mut changes, DesktopChange::Project(ProjectChange::AddProject { id, properties }));
            proof {
                assert(nested@ =~= seq![DesktopTarget::ProjectHeader(id), DesktopTarget::ProjectMatrix(id)]);
                assert(views(changes@) =~= seq![
                    ChangeView::Topology(
                        TopologyChangeView::Add {
                            what: DesktopTarget::Project(id),
                            under: DesktopTarget::Desktop,
                            after: match after {
                                Some(a) => Some(DesktopTarget::Project(a)),
                                None => None,
                            },
                        },
                    ),
                    ChangeView::Topology(
                        TopologyChangeView::AddNested {
                            what: seq![DesktopTarget::ProjectHeader(id), DesktopTarget::ProjectMatrix(id)],
                            under: DesktopTarget::Project(id),
                        },
                    ),
                    ChangeView::Project(ProjectChange::AddProject { id, properties }),
                ]);
            }
            Ok(changes)
        },
        ProjectCommand::RemoveProject(project_id) => {
            let focus_changes = plan_project_removal_focus(a, focus, project_id);
            append_changes(&mut changes, focus_changes);
            let removal = plan_remove_project(a, project_id);
            append_changes(&mut changes, removal);
            assert(views(changes@) =~= spec_project_removal_focus(a.hierarchy@, deref_opt(focus), project_id)
                + spec_remove_project(a.hierarchy@, a.matrix_positions@, project_id));
            Ok(changes)
        },
        ProjectCommand::AddLauncher { project, id, profile, placement } => {
            let ghost moved = Seq::<ChangeView>::empty();
            let occupant = occupant_at(a, project, placement);
            if let Some(occupant) = occupant {
                match launcher_shift_sequence(a, project, occupant, MoveDirection::Right) {
                    Ok(moves) => {
                        proof {
                            moved = views(moves@);
                        }
                        append_changes(&mut changes, moves);
                    },
                    Err(e) => return Err(e),
                }
            }
            assert(views(changes@) =~= moved);
            push_change(&mut changes, DesktopChange::Project(ProjectChange::AddLauncher { project, id, profile, placement }));
            push_change(
                &mut changes,
                DesktopChange::Topology(
                    TopologyChange::Add { what: DesktopTarget::Launcher(id), under: DesktopTarget::ProjectMatrix(project), after: None },
                ),
            );
            assert(views(changes@) =~= moved + launcher_additions(cmd));
            Ok(changes)
        },
        ProjectCommand::RemoveLauncher(launcher_id) => {
            let project = a.hierarchy.project_of_launcher(launcher_id);
            let nested = a.hierarchy.get_nested(&DesktopTarget::ProjectMatrix(project));
            if nested.len() == 1 {
                let focus_changes = plan_project_removal_focus(a, focus, project);
                append_changes(&mut changes, focus_changes);
                let removal = plan_remove_project(a, project);
                append_changes(&mut changes, removal);
                assert(views(changes@) =~= spec_project_removal_focus(a.hierarchy@, deref_opt(focus), project)
                    + spec_remove_project(a.hierarchy@, a.matrix_positions@, project));
                return Ok(changes);
            }
            let launcher_target = DesktopTarget::Launcher(launcher_id);
            let ghost focus_part = Seq::<ChangeView>::empty();
            if a.hierarchy.path_contains_target(focus, &launcher_target) {
                let target = launcher_removal_focus(&a.hierarchy, &a.matrix_positions, launcher_id);
                let focus_changes = set_focus(Some(target), KeyboardFocusReason::InputTransition);
                proof {
                    focus_part = views(focus_changes@);
                }
                append_changes(&mut changes, focus_changes);
                assert(launcher_removal_target(a.hierarchy@, a.matrix_positions@, launcher_id, target));
            }
            assert(views(changes@) =~= focus_part);
            let removal = plan_remove_launcher(a, project, launcher_id, Some(RemoveSlotShiftingPolicy::ShiftLeft));
            append_changes(&mut changes, removal);
            assert(views(changes@) =~= focus_part + spec_remove_launcher(
                a.hierarchy@,
                a.matrix_positions@,
                project,
                launcher_id,
                Some(RemoveSlotShiftingPolicy::ShiftLeft),
            ));
            Ok(changes)
        },
        ProjectCommand::SetStartupProfile(launch_profile_id) => {
            push_change(&mut changes, DesktopChange::Project(ProjectChange::SetStartupProfile(launch_profile_id)));
            assert(views(changes@) =~= seq![ChangeView::Project(ProjectChange::SetStartupProfile(launch_profile_id))]);
            Ok(changes)
        },
    }
}

/// Where a new instance is inserted under `launcher`.
pub fn insertion_position(hierarchy: &DesktopTopology, launcher: LaunchProfileId, originator: Option<InstanceId>) -> (r: usize)
    requires
        hierarchy.wf(),
    ensures
        r == spec_insertion_position(hierarchy@, launcher, originator),
{
    let o = match originator {
        Some(o) => o,
        None => return 0,
    };
    let ghost m = hierarchy@;
    let nested = hierarchy.get_nested(&DesktopTarget::Launcher(launcher));
    let target = DesktopTarget::Instance(o);
    proof {
        hierarchy.lemma_links();
        if m.contains_key(DesktopTarget::Launcher(launcher)) {
            assert(m[DesktopTarget::Launcher(launcher)].nested.no_duplicates());
        }
    }
    let mut i: usize = 0;
    while i < nested.len()
        invariant
            i <= nested@.len(),
            nested@ == spec_nested(m, DesktopTarget::Launcher(launcher)),
            m == hierarchy@,
            nested@.no_duplicates(),
            target == DesktopTarget::Instance(o),
            originator == Some(o),
            forall|j: int| 0 <= j < i ==> nested@[j] != target,
        decreases nested@.len() - i,
    {
        if nested[i] == target {
            proof {
                crate::id_map::lemma_index_of_unique(nested@, i as int);
            }
            return i + 1;
        }
        i += 1;
    }
    nested.len()
}

/// Plan starting an instance under a launcher: spawn it if asked, present it, insert it after the
/// focused instance, focus it, and reset the focus depth.
pub fn plan_start_instance(a: &Aggregates, focus: Option<&DesktopTarget>, launcher: LaunchProfileId, instance: InstanceId, spawn: bool) -> (r:
    Vec<DesktopChange>)
    requires
        a.wf(),
        resolvable(a.hierarchy@, deref_opt(focus)),
    ensures
        views(r@) == spec_start_instance(a.hierarchy@, deref_opt(focus), launcher, instance, spawn),
{
    let originator = a.hierarchy.resolve_path(focus).instance();
    let insertion_pos = insertion_position(&a.hierarchy, launcher, originator);
    let mut changes: Vec<DesktopChange> = Vec::new();
    proof {
        assert(views(changes@) =~= Seq::<ChangeView>::empty());
    }
    if spawn {
        push_change(&mut changes, DesktopChange::SpawnInstance(instance));
    }
    push_change(&mut changes, DesktopChange::PresentInstance { launcher, instance });
    push_change(
        &mut changes,
        DesktopChange::Topology(
            TopologyChange::Insert { what: DesktopTarget::Instance(instance), at_index: insertion_pos, under: DesktopTarget::Launcher(launcher) },
        ),
    );
    let focus_changes = set_focus(Some(DesktopTarget::Instance(instance)), KeyboardFocusReason::PresentInstance);
    append_changes(&mut changes, focus_changes);
    push_change(&mut changes, DesktopChange::CommitFocusDepth(FocusDepth::Instance));
    assert(views(changes@) =~= spec_start_instance(a.hierarchy@, deref_opt(focus), launcher, instance, spawn));
    changes
}

/// Plan stopping an instance: move the focus away from it first when it is on the focused path,
/// then remove, hide and shut it down, and reset the focus depth.
pub fn plan_stop_instance(a: &Aggregates, focus: Option<&DesktopTarget>, instance: InstanceId) -> (r: Vec<DesktopChange>)
    requires
        a.wf(),
        resolvable(a.hierarchy@, deref_opt(focus)),
        launcher_parent(a.hierarchy@, instance) is Some,
    ensures
        views(r@) == spec_stop_instance(a.hierarchy@, deref_opt(focus), instance),
{
    let launcher = a.hierarchy.launcher_of_instance(instance);
    let replacement = match focus {
        Some(focused) => a.hierarchy.resolve_replacement_focus_for_stopping_instance(Some(focused), instance),
        None => None,
    };
    let mut changes: Vec<DesktopChange> = Vec::new();
    proof {
        assert(views(changes@) =~= Seq::<ChangeView>::empty());
    }
    if let Some(target) = replacement {
        let focus_changes = set_focus(Some(target), KeyboardFocusReason::StopInstanceReplacement);
        append_changes(&mut changes, focus_changes);
    }
    push_change(&mut changes, DesktopChange::Topology(TopologyChange::Remove(DesktopTarget::Instance(instance))));
    push_change(&mut changes, DesktopChange::HideInstance { launcher, instance });
    push_change(&mut changes, DesktopChange::ShutdownInstance(instance));
    push_change(&mut changes, DesktopChange::CommitFocusDepth(FocusDepth::Instance));
    assert(views(changes@) =~= spec_stop_instance(a.hierarchy@, deref_opt(focus), instance));
    changes
}

/// Plan a zoom step: commit the next focus depth, if there is one.
pub fn plan_zoom(focus: Option<&DesktopTarget>, focus_depth: FocusDepth, zoom: ZoomChange) -> (r: Vec<DesktopChange>)
    ensures
        views(r@) == spec_zoom(deref_opt(focus), focus_depth, zoom),
{
    let next = match zoom {
        ZoomChange::In => focus_depth.zoom_in(),
        ZoomChange::Out => focus_depth.zoom_out(),
        ZoomChange::Reset => match focus {
            Some(f) => {
                let level = focus_depth_from_target(f);
                if level != focus_depth {
                    Some(level)
                } else {
                    None
                }
            },
            None => None,
        },
    };
    let mut changes: Vec<DesktopChange> = Vec::new();
    proof {
        assert(views(changes@) =~= Seq::<ChangeView>::empty());
    }
    if let Some(d) = next {
        push_change(&mut changes, DesktopChange::CommitFocusDepth(d));
    }
    changes
}

/// Plan a navigation step from the keyboard focus: focus the candidate and commit the column
/// affinity the step produces.
pub fn plan_navigate(a: &Aggregates, navigation_control: &NavigationControl, focus: Option<&DesktopTarget>, direction: Direction) -> (r:
    Vec<DesktopChange>)
    requires
        a.wf(),
    ensures
        navigate_spec(a, *navigation_control, deref_opt(focus), direction, views(r@)),
{
    let mut changes: Vec<DesktopChange> = Vec::new();
    proof {
        assert(views(changes@) =~= Seq::<ChangeView>::empty());
    }
    let focused = match focus {
        Some(f) => f,
        None => return changes,
    };
    let plan = plan_navigation_candidate(
        &a.hierarchy,
        &a.launchers,
        &a.matrix_positions,
        navigation_control,
        focused,
        direction,
    );
    let ghost gplan = plan;
    if let Some(p) = plan {
        let focus_changes = set_focus(Some(p.candidate), KeyboardFocusReason::Navigate);
        append_changes(&mut changes, focus_changes);
        push_change(&mut changes, DesktopChange::CommitNavigationAffinity(p.column_affinity));
        assert(views(changes@) =~= spec_set_focus(Some(p.candidate), KeyboardFocusReason::Navigate) + seq![
            ChangeView::CommitNavigationAffinity(p.column_affinity),
        ]);
    }
    assert(navigation_plan_spec(
        a.hierarchy@,
        a.matrix_positions@,
        a.launchers@,
        navigation_control.affinity(),
        *focused,
        direction,
        gplan,
    ));
    changes
}

/// The command can be planned without a panic.
pub open spec fn command_plannable(a: &Aggregates, focus: Option<DesktopTarget>, command: DesktopCommand) -> bool {
    match command {
        DesktopCommand::Project(c) => project_command_plannable(a.hierarchy@, a.matrix_positions@, focus, c),
        DesktopCommand::StartInstance { .. } => resolvable(a.hierarchy@, focus),
        DesktopCommand::StopInstance(i) => resolvable(a.hierarchy@, focus) && launcher_parent(a.hierarchy@, i) is Some,
        DesktopCommand::Navigate(_) => true,
        DesktopCommand::Zoom(_) => true,
    }
}

/// `r` is the plan of a command.
pub open spec fn plan_spec(
    a: &Aggregates,
    control: NavigationControl,
    focus: Option<DesktopTarget>,
    focus_depth: FocusDepth,
    command: DesktopCommand,
    r: Result<Vec<DesktopChange>, MatrixError>,
) -> bool {
    match command {
        DesktopCommand::Project(c) => project_plan_spec(a.hierarchy@, a.matrix_positions@, focus, c, r),
        DesktopCommand::StartInstance { launcher, instance, spawn } => r matches Ok(v) && views(v@) == spec_start_instance(
            a.hierarchy@,
            focus,
            launcher,
            instance,
            spawn,
        ),
        DesktopCommand::StopInstance(i) => r matches Ok(v) && views(v@) == spec_stop_instance(a.hierarchy@, focus, i),
        DesktopCommand::Navigate(d) => r matches Ok(v) && navigate_spec(a, control, focus, d, views(v@)),
        DesktopCommand::Zoom(z) => r matches Ok(v) && views(v@) == spec_zoom(focus, focus_depth, z),
    }
}

/// Plan the execution of a command into changes.
pub fn plan(
    a: &Aggregates,
    navigation_control: &NavigationControl,
    focus: Option<&DesktopTarget>,
    focus_depth: FocusDepth,
    command: DesktopCommand,
) -> (r: Result<Vec<DesktopChange>, MatrixError>)
    requires
        a.wf(),
        command_plannable(a, deref_opt(focus), command),
    ensures
        plan_spec(a, *navigation_control, deref_opt(focus), focus_depth, command, r),
{
    match command {
        DesktopCommand::Project(project_command) => plan_project(a, focus, project_command),
        DesktopCommand::StartInstance { launcher, instance, spawn } => Ok(plan_start_instance(a, focus, launcher, instance, spawn)),
        DesktopCommand::StopInstance(instance) => Ok(plan_stop_instance(a, focus, instance)),
        DesktopCommand::Navigate(direction) => Ok(plan_navigate(a, navigation_control, focus, direction)),
        DesktopCommand::Zoom(zoom) => Ok(plan_zoom(focus, focus_depth, zoom)),
    }
}

} // verus!
