//! Configuration requests an instance makes of the desktop, planned into changes.
use vstd::prelude::*;

use crate::change::{
    append_changes, push_change, views, ChangeView, DesktopChange, ProjectChange, ProjectCommand,
};
use crate::desktop_system::FocusDepth;
use crate::focus_path::resolvable;
use crate::hierarchy_focus::deref_opt;
use crate::ids::{DesktopTarget, InstanceId, LaunchProfileId, ProjectId};
use crate::matrix_positions::{first_at, spec_moved, spec_shifted, MatrixError, MatrixPlacement, MatrixPositions, MoveDirection};
use crate::ordered_hierarchy::{spec_nested, HierarchyView};
use crate::planning::{
    launcher_moves, plan_project, project_command_plannable, project_plan_spec, slots_cover, Aggregates,
};
use crate::project_configuration::Parameters;
use crate::projects::{LaunchProfile, LauncherMode, LauncherState, ProjectProperties};
use crate::topology::{launcher_ids, launcher_parent, matrix_parent};

verus! {

/// What an instance asks of the desktop's configuration.
#[derive(Debug)]
pub enum ConfigurationRequest {
    AddProject,
    RemoveProject { name: Option<String> },
    AddLauncher,
    RemoveLauncher { name: Option<String> },
    MoveLauncher { direction: MoveDirection },
    PushLauncher { direction: MoveDirection },
    Resize { width: u32, height: u32 },
    Undo,
    Redo,
}

/// The first project among the targets `s` whose name is `name`.
pub open spec fn first_named_project(s: Seq<DesktopTarget>, projects: Map<ProjectId, ProjectProperties>, name: Seq<char>) -> Option<
    ProjectId,
>
    decreases s.len(),
{
    if s.len() == 0 {
        None
    } else {
        match s[0] {
            DesktopTarget::Project(p) => if projects[p].name@ == name {
                Some(p)
            } else {
                first_named_project(s.drop_first(), projects, name)
            },
            _ => first_named_project(s.drop_first(), projects, name),
        }
    }
}

/// The first launcher among `ids` whose name is `name`.
pub open spec fn first_named_launcher(ids: Seq<LaunchProfileId>, launchers: Map<LaunchProfileId, LauncherState>, name: Seq<char>) -> Option<
    LaunchProfileId,
>
    decreases ids.len(),
{
    if ids.len() == 0 {
        None
    } else if launchers[ids[0]].name@ == name {
        Some(ids[0])
    } else {
        first_named_launcher(ids.drop_first(), launchers, name)
    }
}

/// The project of the requesting instance: the one whose matrix holds its launcher.
pub open spec fn requesting_project(m: HierarchyView<DesktopTarget>, instance: InstanceId) -> ProjectId {
    matrix_parent(m, launcher_parent(m, instance)->0)->0
}

/// The launcher of the requesting instance.
pub open spec fn requesting_launcher(m: HierarchyView<DesktopTarget>, instance: InstanceId) -> LaunchProfileId {
    launcher_parent(m, instance)->0
}

/// Every project on the desktop and every launcher of `project` is known by name.
pub open spec fn names_known(a: &Aggregates, project: ProjectId) -> bool {
    &&& forall|i: int|
        0 <= i < spec_nested(a.hierarchy@, DesktopTarget::Desktop).len() ==> (#[trigger] spec_nested(
            a.hierarchy@,
            DesktopTarget::Desktop,
        )[i] matches DesktopTarget::Project(p) ==> a.projects@.contains_key(p))
    &&& forall|i: int|
        0 <= i < launcher_ids(spec_nested(a.hierarchy@, DesktopTarget::ProjectMatrix(project))).len() ==> a.launchers@.contains_key(
            #[trigger] launcher_ids(spec_nested(a.hierarchy@, DesktopTarget::ProjectMatrix(project)))[i],
        )
}

/// The project the request `RemoveProject { name }` removes, if any.
pub open spec fn project_to_remove(a: &Aggregates, instance: InstanceId, name: Option<String>) -> Option<ProjectId> {
    match name {
        Some(n) => first_named_project(spec_nested(a.hierarchy@, DesktopTarget::Desktop), a.projects@, n@),
        None => Some(requesting_project(a.hierarchy@, instance)),
    }
}

/// The launcher the request `RemoveLauncher { name }` removes, if any.
pub open spec fn launcher_to_remove(a: &Aggregates, instance: InstanceId, name: Option<String>) -> Option<LaunchProfileId> {
    match name {
        Some(n) => first_named_launcher(
            launcher_ids(spec_nested(a.hierarchy@, DesktopTarget::ProjectMatrix(requesting_project(a.hierarchy@, instance)))),
            a.launchers@,
            n@,
        ),
        None => Some(requesting_launcher(a.hierarchy@, instance)),
    }
}

/// The request can be planned without a panic.
pub open spec fn request_plannable(a: &Aggregates, focus: Option<DesktopTarget>, instance: InstanceId, request: ConfigurationRequest) -> bool {
    let m = a.hierarchy@;
    let pos = a.matrix_positions@;
    let project = requesting_project(m, instance);
    let launcher = requesting_launcher(m, instance);
    &&& launcher_parent(m, instance) is Some
    &&& matrix_parent(m, launcher) is Some
    &&& match request {
        ConfigurationRequest::AddProject => forall|p: ProjectId| #[trigger] slots_cover(m, pos, p),
        ConfigurationRequest::RemoveProject { name } => {
            &&& names_known(a, project)
            &&& match project_to_remove(a, instance, name) {
                Some(p) => project_command_plannable(m, pos, focus, ProjectCommand::RemoveProject(p)),
                None => true,
            }
        },
        ConfigurationRequest::AddLauncher => {
            &&& pos.contains_key(launcher)
            &&& pos[launcher].column < u32::MAX
            &&& slots_cover(m, pos, project)
        },
        ConfigurationRequest::RemoveLauncher { name } => {
            &&& names_known(a, project)
            &&& match launcher_to_remove(a, instance, name) {
                Some(l) => project_command_plannable(m, pos, focus, ProjectCommand::RemoveLauncher(l)),
                None => true,
            }
        },
        ConfigurationRequest::MoveLauncher { .. } => pos.contains_key(launcher) && slots_cover(m, pos, project),
        ConfigurationRequest::PushLauncher { .. } => pos.contains_key(launcher) && slots_cover(m, pos, project),
        ConfigurationRequest::Resize { .. } => true,
        ConfigurationRequest::Undo => false,
        ConfigurationRequest::Redo => false,
    }
}

/// The name given to a project a request adds.
pub open spec fn new_project_name() -> Seq<char> {
    seq!['N', 'e', 'w', ' ', 'P', 'r', 'o', 'j', 'e', 'c', 't']
}

/// The name given to a launcher a request adds.
pub open spec fn new_launcher_name() -> Seq<char> {
    seq!['N', 'e', 'w', ' ', 'L', 'a', 'u', 'n', 'c', 'h', 'e', 'r']
}

/// A fresh profile a request adds a launcher with: the default name, visor mode, no tags and no
/// parameters.
pub open spec fn is_new_profile(profile: LaunchProfile) -> bool {
    &&& profile.name@ == new_launcher_name()
    &&& profile.mode == LauncherMode::Visor
    &&& profile.tags@.len() == 0
    &&& profile.params.0@.len() == 0
}

/// The moves of a launcher move request: the launcher at the target slot (if any) swaps into the
/// slot of the moving launcher, which moves to the target slot.
pub open spec fn spec_launcher_swap(
    m: HierarchyView<DesktopTarget>,
    pos: Map<LaunchProfileId, MatrixPlacement>,
    project: ProjectId,
    launcher: LaunchProfileId,
    placement: MatrixPlacement,
) -> Seq<ChangeView> {
    let swapped = match first_at(pos, launcher_ids(spec_nested(m, DesktopTarget::ProjectMatrix(project))), placement) {
        Some(other) => seq![
            ChangeView::Project(ProjectChange::MoveLauncher { launcher: other, placement: pos[launcher] }),
        ],
        None => Seq::empty(),
    };
    swapped + seq![ChangeView::Project(ProjectChange::MoveLauncher { launcher, placement })]
}

/// `r` is the plan of a configuration request.
pub open spec fn request_plan_spec(
    a: &Aggregates,
    focus: Option<DesktopTarget>,
    focus_depth: FocusDepth,
    instance: InstanceId,
    request: ConfigurationRequest,
    r: Result<Vec<DesktopChange>, MatrixError>,
) -> bool {
    let m = a.hierarchy@;
    let pos = a.matrix_positions@;
    let project = requesting_project(m, instance);
    let launcher = requesting_launcher(m, instance);
    match request {
        ConfigurationRequest::AddProject => exists|
            p: ProjectId,
            l: LaunchProfileId,
            properties: ProjectProperties,
            profile: LaunchProfile,
            r1: Result<Vec<DesktopChange>, MatrixError>,
            r2: Result<Vec<DesktopChange>, MatrixError>,
        |
            {
                &&& properties.name@ == new_project_name()
                &&& is_new_profile(profile)
                &&& #[trigger] project_plan_spec(
                    m,
                    pos,
                    focus,
                    ProjectCommand::AddProject { id: p, properties, after: Some(project) },
                    r1,
                )
                &&& #[trigger] project_plan_spec(
                    m,
                    pos,
                    focus,
                    ProjectCommand::AddLauncher {
                        project: p,
                        id: l,
                        profile,
                        placement: MatrixPlacement { column: 0, row: 0 },
                    },
                    r2,
                )
                &&& match (r1, r2) {
                    (Ok(v1), Ok(v2)) => r matches Ok(v) && views(v@) == views(v1@) + views(v2@),
                    (Err(e), _) => r == Err::<Vec<DesktopChange>, MatrixError>(e),
                    (Ok(_), Err(e)) => r == Err::<Vec<DesktopChange>, MatrixError>(e),
                }
            },
        ConfigurationRequest::RemoveProject { name } => match project_to_remove(a, instance, name) {
            Some(p) => project_plan_spec(m, pos, focus, ProjectCommand::RemoveProject(p), r),
            None => r matches Ok(v) && v@.len() == 0,
        },
        ConfigurationRequest::AddLauncher => exists|l: LaunchProfileId, profile: LaunchProfile|
            is_new_profile(profile) && #[trigger] project_plan_spec(
                m,
                pos,
                focus,
                ProjectCommand::AddLauncher {
                    project,
                    id: l,
                    profile,
                    placement: MatrixPlacement { column: (pos[launcher].column + 1) as u32, row: pos[launcher].row },
                },
                r,
            ),
        ConfigurationRequest::RemoveLauncher { name } => match launcher_to_remove(a, instance, name) {
            Some(l) => project_plan_spec(m, pos, focus, ProjectCommand::RemoveLauncher(l), r),
            None => r matches Ok(v) && v@.len() == 0,
        },
        ConfigurationRequest::MoveLauncher { direction } => match spec_moved(pos[launcher], direction) {
            Some(placement) => r matches Ok(v) && views(v@) == spec_launcher_swap(m, pos, project, launcher, placement),
            None => r matches Ok(v) && v@.len() == 0,
        },
        ConfigurationRequest::PushLauncher { direction } => match spec_shifted(
            pos,
            launcher_ids(spec_nested(m, DesktopTarget::ProjectMatrix(project))),
            launcher,
            direction,
        ) {
            Some(s) => r matches Ok(v) && views(v@) == launcher_moves(s),
            None => r matches Ok(v) && v@.len() == 0,
        },
        ConfigurationRequest::Resize { width, height } => r matches Ok(v) && views(v@) == (if focus_depth
            == FocusDepth::InstanceFullScreen {
            seq![ChangeView::CommitFocusDepth(FocusDepth::Instance)]
        } else {
            Seq::empty()
        }) + seq![ChangeView::ResizeAll { width, height }],
        ConfigurationRequest::Undo => false,
        ConfigurationRequest::Redo => false,
    }
}

fn no_changes() -> (r: Vec<DesktopChange>)
    ensures
        r@.len() == 0,
        views(r@) == Seq::<ChangeView>::empty(),
{
    let r: Vec<DesktopChange> = Vec::new();
    assert(views(r@) =~= Seq::<ChangeView>::empty());
    r
}

/// A fresh profile for a launcher a request adds.
fn new_profile() -> (p: LaunchProfile)
    ensures
        is_new_profile(p),
{
    proof {
        reveal_strlit("New Launcher");
    }
    let name = "New Launcher".to_owned();
    assert(name@ == "New Launcher"@);
    assert(name@ =~= new_launcher_name());
    let p = LaunchProfile { name, mode: LauncherMode::Visor, tags: Vec::new(), params: Parameters(Vec::new()) };
    assert(p.tags@.len() == 0);
    assert(p.params.0@.len() == 0);
    p
}

/// The project on the desktop with the given name.
fn find_named_project(a: &Aggregates, instance: InstanceId, name: &String) -> (r: Option<ProjectId>)
    requires
        a.wf(),
        names_known(a, requesting_project(a.hierarchy@, instance)),
    ensures
        r == first_named_project(spec_nested(a.hierarchy@, DesktopTarget::Desktop), a.projects@, name@),
{
    let targets = a.hierarchy.get_nested(&DesktopTarget::Desktop);
    let ghost s = targets@;
    let mut i: usize = 0;
    assert(s.skip(0) =~= s);
    while i < targets.len()
        invariant
            a.wf(),
            s == targets@,
            s == spec_nested(a.hierarchy@, DesktopTarget::Desktop),
            names_known(a, requesting_project(a.hierarchy@, instance)),
            i <= s.len(),
            first_named_project(s, a.projects@, name@) == first_named_project(s.skip(i as int), a.projects@, name@),
        decreases s.len() - i,
    {
        proof {
            assert(s.skip(i as int)[0] == s[i as int]);
            assert(s.skip(i as int).drop_first() =~= s.skip(i + 1));
        }
        if let DesktopTarget::Project(p) = targets[i] {
            proof {
                assert(s[i as int] matches DesktopTarget::Project(q) ==> a.projects@.contains_key(q));
            }
            match a.projects.get(&p) {
                Some(properties) => {
                    if properties.name == *name {
                        return Some(p);
                    }
                },
                None => {},
            }
        }
        i += 1;
    }
    assert(s.skip(s.len() as int).len() == 0);
    None
}

/// The launcher in the matrix of the requesting instance's project with the given name.
fn find_named_launcher(a: &Aggregates, instance: InstanceId, name: &String) -> (r: Option<LaunchProfileId>)
    requires
        a.wf(),
        launcher_parent(a.hierarchy@, instance) is Some,
        matrix_parent(a.hierarchy@, requesting_launcher(a.hierarchy@, instance)) is Some,
        names_known(a, requesting_project(a.hierarchy@, instance)),
    ensures
        r == first_named_launcher(
            launcher_ids(spec_nested(a.hierarchy@, DesktopTarget::ProjectMatrix(requesting_project(a.hierarchy@, instance)))),
            a.launchers@,
            name@,
        ),
{
    let project = requesting_project_of(a, instance);
    proof {
        assert(crate::topology::all_launchers(spec_nested(a.hierarchy@, DesktopTarget::ProjectMatrix(project))));
    }
    let launchers = a.hierarchy.matrix_launchers(project);
    let ghost ids = launchers@;
    let mut i: usize = 0;
    assert(ids.skip(0) =~= ids);
    while i < launchers.len()
        invariant
            a.wf(),
            ids == launchers@,
            ids == launcher_ids(spec_nested(a.hierarchy@, DesktopTarget::ProjectMatrix(project))),
            project == requesting_project(a.hierarchy@, instance),
            names_known(a, project),
            i <= ids.len(),
            first_named_launcher(ids, a.launchers@, name@) == first_named_launcher(ids.skip(i as int), a.launchers@, name@),
        decreases ids.len() - i,
    {
        let l = launchers[i];
        proof {
            assert(ids.skip(i as int)[0] == l);
            assert(ids.skip(i as int).drop_first() =~= ids.skip(i + 1));
            assert(a.launchers@.contains_key(ids[i as int]));
        }
        match a.launchers.get(&l) {
            Some(state) => {
                if state.name == *name {
                    return Some(l);
                }
            },
            None => {},
        }
        i += 1;
    }
    assert(ids.skip(ids.len() as int).len() == 0);
    None
}

/// The project of the requesting instance.
fn requesting_project_of(a: &Aggregates, instance: InstanceId) -> (r: ProjectId)
    requires
        a.wf(),
        launcher_parent(a.hierarchy@, instance) is Some,
        matrix_parent(a.hierarchy@, requesting_launcher(a.hierarchy@, instance)) is Some,
    ensures
        r == requesting_project(a.hierarchy@, instance),
{
    let launcher = a.hierarchy.launcher_of_instance(instance);
    a.hierarchy.project_of_launcher(launcher)
}

/// The launcher of `project` at `placement`.
fn launcher_at(a: &Aggregates, project: ProjectId, placement: MatrixPlacement) -> (r: Option<LaunchProfileId>)
    requires
        a.wf(),
        slots_cover(a.hierarchy@, a.matrix_positions@, project),
    ensures
        r == first_at(a.matrix_positions@, launcher_ids(spec_nested(a.hierarchy@, DesktopTarget::ProjectMatrix(project))), placement),
{
    proof {
        assert(crate::topology::all_launchers(spec_nested(a.hierarchy@, DesktopTarget::ProjectMatrix(project))));
    }
    let launchers = a.hierarchy.matrix_launchers(project);
    let ghost pos = a.matrix_positions@;
    let ghost ids = launchers@;
    let mut i: usize = 0;
    assert(ids.skip(0) =~= ids);
    while i < launchers.len()
        invariant
            a.wf(),
            pos == a.matrix_positions@,
            ids == launchers@,
            ids == launcher_ids(spec_nested(a.hierarchy@, DesktopTarget::ProjectMatrix(project))),
            i <= ids.len(),
            forall|j: int| 0 <= j < ids.len() ==> pos.contains_key(#[trigger] ids[j]),
            first_at(pos, ids, placement) == first_at(pos, ids.skip(i as int), placement),
        decreases ids.len() - i,
    {
        let l = launchers[i];
        proof {
            assert(ids.skip(i as int).len() > 0);
            assert(ids.skip(i as int)[0] == l);
            assert(ids.skip(i as int).drop_first() =~= ids.skip(i + 1));
            assert(pos.contains_key(ids[i as int]));
        }
        match a.matrix_positions.get(&l) {
            Some(p) => {
                if *p == placement {
                    return Some(l);
                }
            },
            None => {},
        }
        i += 1;
    }
    assert(ids.skip(ids.len() as int).len() == 0);
    None
}

/// The moves that push `launcher` one slot in `direction`, shifting the launchers of `project`
/// in its way; an error where the push would leave the matrix.
fn launcher_shift_sequence(a: &Aggregates, project: ProjectId, launcher: LaunchProfileId, direction: MoveDirection) -> (r:
    Result<Vec<DesktopChange>, MatrixError>)
    requires
        a.wf(),
        a.matrix_positions@.contains_key(launcher),
        slots_cover(a.hierarchy@, a.matrix_positions@, project),
    ensures
        match spec_shifted(
            a.matrix_positions@,
            launcher_ids(spec_nested(a.hierarchy@, DesktopTarget::ProjectMatrix(project))),
            launcher,
            direction,
        ) {
            Some(s) => r matches Ok(v) && views(v@) == launcher_moves(s),
            None => r is Err,
        },
{
    let ghost m = a.hierarchy@;
    proof {
        assert(crate::topology::all_launchers(spec_nested(m, DesktopTarget::ProjectMatrix(project))));
    }
    let launchers = a.hierarchy.matrix_launchers(project);
    let shifted = a.matrix_positions.shifted_launchers(launchers.as_slice(), launcher, direction)?;
    let mut changes = no_changes();
    let mut i: usize = 0;
    while i < shifted.len()
        invariant
            i <= shifted@.len(),
            views(changes@) =~= launcher_moves(shifted@.take(i as int)),
        decreases shifted@.len() - i,
    {
        let (l, placement) = shifted[i];
        push_change(&mut changes, DesktopChange::Project(ProjectChange::MoveLauncher { launcher: l, placement }));
        i += 1;
    }
    assert(shifted@.take(shifted@.len() as int) =~= shifted@);
    Ok(changes)
}

/// Plan a configuration request of `instance` into changes.
pub fn plan_configuration_request(
    a: &Aggregates,
    focus: Option<&DesktopTarget>,
    focus_depth: FocusDepth,
    instance: InstanceId,
    request: ConfigurationRequest,
) -> (r: Result<Vec<DesktopChange>, MatrixError>)
    requires
        a.wf(),
        request_plannable(a, deref_opt(focus), instance, request),
    ensures
        request_plan_spec(a, deref_opt(focus), focus_depth, instance, request, r),
{
    let ghost m = a.hierarchy@;
    let ghost pos = a.matrix_positions@;
    let current_project = requesting_project_of(a, instance);
    match request {
        ConfigurationRequest::AddProject => {
            let project = ProjectId::new();
            let launcher = LaunchProfileId::new();
            proof {
                reveal_strlit("New Project");
            }
            let project_name = "New Project".to_owned();
            assert(project_name@ == "New Project"@);
            assert(project_name@ =~= new_project_name());
            let properties = ProjectProperties { name: project_name };
            let ghost gproperties = properties;
            let profile = new_profile();
            let ghost gprofile = profile;
            let first = plan_project(a, focus, ProjectCommand::AddProject { id: project, properties, after: Some(current_project) });
            let ghost r1 = first;
            assert(slots_cover(m, pos, project));
            let second = plan_project(
                a,
                focus,
                ProjectCommand::AddLauncher { project, id: launcher, profile, placement: MatrixPlacement { column: 0, row: 0 } },
            );
            let ghost r2 = second;
            let r = match first {
                Ok(mut changes) => match second {
                    Ok(more) => {
                        append_changes(&mut changes, more);
                        Ok(changes)
                    },
                    Err(e) => Err(e),
                },
                Err(e) => Err(e),
            };
            assert(project_plan_spec(
                m,
                pos,
                deref_opt(focus),
                ProjectCommand::AddProject { id: project, properties: gproperties, after: Some(current_project) },
                r1,
            ));
            assert(project_plan_spec(
                m,
                pos,
                deref_opt(focus),
                ProjectCommand::AddLauncher { project, id: launcher, profile: gprofile, placement: MatrixPlacement { column: 0, row: 0 } },
                r2,
            ));
            r
        },
        ConfigurationRequest::RemoveProject { name } => {
            let target = match name {
                Some(n) => find_named_project(a, instance, &n),
                None => Some(current_project),
            };
            match target {
                Some(p) => plan_project(a, focus, ProjectCommand::RemoveProject(p)),
                None => Ok(no_changes()),
            }
        },
        ConfigurationRequest::AddLauncher => {
            let current_launcher = a.hierarchy.launcher_of_instance(instance);
            let current_placement = match a.matrix_positions.get(&current_launcher) {
                Some(p) => *p,
                None => return Ok(no_changes()),
            };
            let profile = new_profile();
            let ghost gprofile = profile;
            let id = LaunchProfileId::new();
            let placement = MatrixPlacement { column: current_placement.column + 1, row: current_placement.row };
            let r = plan_project(a, focus, ProjectCommand::AddLauncher { project: current_project, id, profile, placement });
            assert(project_plan_spec(
                m,
                pos,
                deref_opt(focus),
                ProjectCommand::AddLauncher { project: current_project, id, profile: gprofile, placement },
                r,
            ));
            r
        },
        ConfigurationRequest::RemoveLauncher { name } => {
            let target = match name {
                Some(n) => find_named_launcher(a, instance, &n),
                None => Some(a.hierarchy.launcher_of_instance(instance)),
            };
            match target {
                Some(l) => plan_project(a, focus, ProjectCommand::RemoveLauncher(l)),
                None => Ok(no_changes()),
            }
        },
        ConfigurationRequest::MoveLauncher { direction } => {
            let launcher = a.hierarchy.launcher_of_instance(instance);
            let current_placement = match a.matrix_positions.get(&launcher) {
                Some(p) => *p,
                None => return Ok(no_changes()),
            };
            let placement = match MatrixPositions::moved_placement(current_placement, direction) {
                Some(p) => p,
                None => return Ok(no_changes()),
            };
            let swapped = launcher_at(a, current_project, placement);
            let mut changes = no_changes();
            if let Some(other) = swapped {
                push_change(
                    &mut changes,
                    DesktopChange::Project(ProjectChange::MoveLauncher { launcher: other, placement: current_placement }),
                );
            }
            push_change(&mut changes, DesktopChange::Project(ProjectChange::MoveLauncher { launcher, placement }));
            assert(views(changes@) =~= spec_launcher_swap(m, pos, current_project, launcher, placement));
            Ok(changes)
        },
        ConfigurationRequest::PushLauncher { direction } => {
            let launcher = a.hierarchy.launcher_of_instance(instance);
            match launcher_shift_sequence(a, current_project, launcher, direction) {
                Ok(changes) => Ok(changes),
                Err(_) => Ok(no_changes()),
            }
        },
        ConfigurationRequest::Resize { width, height } => {
            let mut changes = no_changes();
            if let FocusDepth::InstanceFullScreen = focus_depth {
                push_change(&mut changes, DesktopChange::CommitFocusDepth(FocusDepth::Instance));
            }
            push_change(&mut changes, DesktopChange::ResizeAll { width, height });
            assert(views(changes@) =~= (if focus_depth == FocusDepth::InstanceFullScreen {
                seq![ChangeView::CommitFocusDepth(FocusDepth::Instance)]
            } else {
                Seq::empty()
            }) + seq![ChangeView::ResizeAll { width, height }]);
            Ok(changes)
        },
        ConfigurationRequest::Undo => {
            proof {
                assert(false);
            }
            Ok(no_changes())
        },
        ConfigurationRequest::Redo => {
            proof {
                assert(false);
            }
            Ok(no_changes())
        },
    }
}

} // verus!
