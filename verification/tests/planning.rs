use desktop::change::{DesktopChange, DesktopCommand, ProjectChange, ProjectCommand, TopologyChange, ZoomChange};
use desktop::id_map::IdMap;
use desktop::planning::{plan, plan_project, Aggregates};
use desktop::project_configuration::Parameters;
use desktop::projects::{LaunchProfile, LauncherMode, LauncherState, ProjectProperties};
use desktop::{
    Direction, DesktopTarget, FocusDepth, InstanceId, KeyboardFocusReason, LaunchProfileId, MatrixError, MatrixPlacement,
    MatrixPositions, NavigationControl, OrderedHierarchy, ProjectId, RemoveSlotShiftingPolicy, ViewId,
};

struct Desk {
    aggregates: Aggregates,
    p: ProjectId,
    q: ProjectId,
    l1: LaunchProfileId,
    l2: LaunchProfileId,
    l3: LaunchProfileId,
    m: LaunchProfileId,
    i1: InstanceId,
    i2: InstanceId,
    v: ViewId,
}

fn state(name: &str) -> LauncherState {
    LauncherState { name: name.to_string(), mode: LauncherMode::Band, focus_anchor_instance: None }
}

fn place(c: u32, r: u32) -> MatrixPlacement {
    MatrixPlacement { column: c, row: r }
}

/// Project p holds l1 (0,0), l2 (1,0) and l3 (0,1); l1 holds i1 and i2, i2 holds the view v.
/// Project q holds m (0,0).
fn desk() -> Desk {
    let (p, q) = (ProjectId::new(), ProjectId::new());
    let (l1, l2, l3, m) = (LaunchProfileId::new(), LaunchProfileId::new(), LaunchProfileId::new(), LaunchProfileId::new());
    let (i1, i2, v) = (InstanceId::new(), InstanceId::new(), ViewId::new());
    let mut hierarchy = OrderedHierarchy::new();
    for project in [p, q] {
        hierarchy.add(DesktopTarget::Desktop, DesktopTarget::Project(project)).unwrap();
        hierarchy
            .add_nested(
                DesktopTarget::Project(project),
                vec![DesktopTarget::ProjectHeader(project), DesktopTarget::ProjectMatrix(project)],
            )
            .unwrap();
    }
    let mut matrix_positions = MatrixPositions::new();
    let mut launchers = IdMap::new();
    for (project, launcher, placement, name) in
        [(p, l1, place(0, 0), "one"), (p, l2, place(1, 0), "two"), (p, l3, place(0, 1), "three"), (q, m, place(0, 0), "em")]
    {
        hierarchy.add(DesktopTarget::ProjectMatrix(project), DesktopTarget::Launcher(launcher)).unwrap();
        matrix_positions.place(&[], launcher, placement).unwrap();
        launchers.insert(launcher, state(name)).unwrap();
    }
    hierarchy.add(DesktopTarget::Launcher(l1), DesktopTarget::Instance(i1)).unwrap();
    hierarchy.add(DesktopTarget::Launcher(l1), DesktopTarget::Instance(i2)).unwrap();
    hierarchy.add(DesktopTarget::Instance(i2), DesktopTarget::View(v)).unwrap();
    let mut projects = IdMap::new();
    projects.insert(p, ProjectProperties { name: "pe".to_string() }).unwrap();
    projects.insert(q, ProjectProperties { name: "queue".to_string() }).unwrap();
    Desk {
        aggregates: Aggregates { hierarchy, matrix_positions, projects, launchers, startup_profile: None },
        p,
        q,
        l1,
        l2,
        l3,
        m,
        i1,
        i2,
        v,
    }
}

fn profile() -> LaunchProfile {
    LaunchProfile { name: "new".to_string(), mode: LauncherMode::Visor, tags: Vec::new(), params: Parameters(Vec::new()) }
}

#[test]
fn add_project_adds_the_project_its_parts_and_its_properties() {
    let d = desk();
    let id = ProjectId::new();
    let changes = plan_project(
        &d.aggregates,
        None,
        ProjectCommand::AddProject { id, properties: ProjectProperties { name: "x".to_string() }, after: Some(d.p) },
    )
    .unwrap();
    assert_eq!(changes.len(), 3);
    assert!(matches!(&changes[0], DesktopChange::Topology(TopologyChange::Add { what, under: DesktopTarget::Desktop, after: Some(DesktopTarget::Project(a)) }) if *what == DesktopTarget::Project(id) && *a == d.p));
    match &changes[1] {
        DesktopChange::Topology(TopologyChange::AddNested { what, under }) => {
            assert_eq!(*what, vec![DesktopTarget::ProjectHeader(id), DesktopTarget::ProjectMatrix(id)]);
            assert_eq!(*under, DesktopTarget::Project(id));
        }
        other => panic!("unexpected {other:?}"),
    }
    assert!(matches!(&changes[2], DesktopChange::Project(ProjectChange::AddProject { id: x, properties }) if *x == id && properties.name == "x"));
}

#[test]
fn removing_a_focused_project_moves_the_focus_to_the_next_project() {
    let d = desk();
    let focus = DesktopTarget::Instance(d.i1);
    let changes = plan_project(&d.aggregates, Some(&focus), ProjectCommand::RemoveProject(d.p)).unwrap();
    assert!(matches!(changes[0], DesktopChange::SetFocus { target: Some(DesktopTarget::Project(x)), reason: KeyboardFocusReason::InputTransition } if x == d.q));
    assert!(matches!(changes[1], DesktopChange::CommitNavigationAffinity(None)));
    // Two instances of l1 (three changes each), then each launcher's topology and project
    // changes, then the project.
    assert!(matches!(changes[2], DesktopChange::Topology(TopologyChange::Remove(DesktopTarget::Instance(i))) if i == d.i1));
    assert!(matches!(changes[3], DesktopChange::HideInstance { launcher, instance } if launcher == d.l1 && instance == d.i1));
    assert!(matches!(changes[4], DesktopChange::ShutdownInstance(i) if i == d.i1));
    assert!(matches!(changes[5], DesktopChange::Topology(TopologyChange::Remove(DesktopTarget::Instance(i))) if i == d.i2));
    assert!(matches!(changes[8], DesktopChange::Topology(TopologyChange::Remove(DesktopTarget::Launcher(l))) if l == d.l1));
    assert!(matches!(changes[9], DesktopChange::Project(ProjectChange::RemoveLauncher(l)) if l == d.l1));
    assert_eq!(changes.len(), 2 + 6 + 2 * 3 + 2);
    assert!(matches!(changes[14], DesktopChange::Project(ProjectChange::RemoveProject(x)) if x == d.p));
    assert!(matches!(changes[15], DesktopChange::Topology(TopologyChange::Remove(DesktopTarget::Project(x))) if x == d.p));
}

#[test]
fn removing_the_last_project_focuses_the_desktop() {
    let d = desk();
    let focus = DesktopTarget::Launcher(d.m);
    let changes = plan_project(&d.aggregates, Some(&focus), ProjectCommand::RemoveProject(d.q)).unwrap();
    assert!(matches!(changes[0], DesktopChange::SetFocus { target: Some(DesktopTarget::Desktop), .. }));
}

#[test]
fn adding_a_launcher_on_an_occupied_slot_shifts_the_row_first() {
    let d = desk();
    let id = LaunchProfileId::new();
    let changes = plan_project(
        &d.aggregates,
        None,
        ProjectCommand::AddLauncher { project: d.p, id, profile: profile(), placement: place(0, 0) },
    )
    .unwrap();
    assert_eq!(changes.len(), 4);
    assert!(matches!(changes[0], DesktopChange::Project(ProjectChange::MoveLauncher { launcher, placement }) if launcher == d.l2 && placement == place(2, 0)));
    assert!(matches!(changes[1], DesktopChange::Project(ProjectChange::MoveLauncher { launcher, placement }) if launcher == d.l1 && placement == place(1, 0)));
    assert!(matches!(changes[2], DesktopChange::Project(ProjectChange::AddLauncher { id: x, .. }) if x == id));
    assert!(matches!(changes[3], DesktopChange::Topology(TopologyChange::Add { what: DesktopTarget::Launcher(x), under: DesktopTarget::ProjectMatrix(y), after: None }) if x == id && y == d.p));
}

#[test]
fn adding_a_launcher_on_a_free_slot_only_adds_it() {
    let d = desk();
    let id = LaunchProfileId::new();
    let changes = plan_project(
        &d.aggregates,
        None,
        ProjectCommand::AddLauncher { project: d.p, id, profile: profile(), placement: place(5, 5) },
    )
    .unwrap();
    assert_eq!(changes.len(), 2);
}

#[test]
fn adding_a_launcher_at_the_boundary_is_refused() {
    let mut d = desk();
    d.aggregates.matrix_positions.set(d.l2, place(u32::MAX, 0));
    d.aggregates.matrix_positions.set(d.l1, place(u32::MAX - 1, 0));
    let result = plan_project(
        &d.aggregates,
        None,
        ProjectCommand::AddLauncher { project: d.p, id: LaunchProfileId::new(), profile: profile(), placement: place(u32::MAX - 1, 0) },
    );
    assert!(matches!(result, Err(MatrixError::Boundary)));
}

#[test]
fn removing_an_unfocused_launcher_removes_its_slot() {
    let d = desk();
    let changes = plan_project(&d.aggregates, None, ProjectCommand::RemoveLauncher(d.l2)).unwrap();
    assert_eq!(changes.len(), 3);
    assert!(matches!(changes[2], DesktopChange::Project(ProjectChange::RemoveSlot { project, placement, shifting_policy: RemoveSlotShiftingPolicy::ShiftLeft }) if project == d.p && placement == place(1, 0)));
}

#[test]
fn removing_a_focused_launcher_moves_the_focus_to_its_right_neighbor() {
    let d = desk();
    let focus = DesktopTarget::Instance(d.i1);
    let changes = plan_project(&d.aggregates, Some(&focus), ProjectCommand::RemoveLauncher(d.l1)).unwrap();
    assert!(matches!(changes[0], DesktopChange::SetFocus { target: Some(DesktopTarget::Launcher(l)), reason: KeyboardFocusReason::InputTransition } if l == d.l2));
}

#[test]
fn removing_the_only_launcher_removes_its_project() {
    let d = desk();
    let changes = plan_project(&d.aggregates, None, ProjectCommand::RemoveLauncher(d.m)).unwrap();
    assert!(matches!(changes.last(), Some(DesktopChange::Topology(TopologyChange::Remove(DesktopTarget::Project(x)))) if *x == d.q));
}

#[test]
fn starting_an_instance_inserts_it_after_the_focused_one() {
    let d = desk();
    let focus = DesktopTarget::Instance(d.i1);
    let instance = InstanceId::new();
    let changes = plan(
        &d.aggregates,
        &NavigationControl::new(),
        Some(&focus),
        FocusDepth::Launcher,
        DesktopCommand::StartInstance { launcher: d.l1, instance, spawn: true },
    )
    .unwrap();
    assert_eq!(changes.len(), 6);
    assert!(matches!(changes[0], DesktopChange::SpawnInstance(i) if i == instance));
    assert!(matches!(changes[1], DesktopChange::PresentInstance { launcher, instance: i } if launcher == d.l1 && i == instance));
    assert!(matches!(changes[2], DesktopChange::Topology(TopologyChange::Insert { at_index: 1, .. })));
    assert!(matches!(changes[3], DesktopChange::SetFocus { reason: KeyboardFocusReason::PresentInstance, .. }));
    assert!(matches!(changes[5], DesktopChange::CommitFocusDepth(FocusDepth::Instance)));
}

#[test]
fn starting_an_instance_without_focus_inserts_it_first() {
    let d = desk();
    let changes = plan(
        &d.aggregates,
        &NavigationControl::new(),
        None,
        FocusDepth::Instance,
        DesktopCommand::StartInstance { launcher: d.l2, instance: InstanceId::new(), spawn: false },
    )
    .unwrap();
    assert_eq!(changes.len(), 5);
    assert!(matches!(changes[1], DesktopChange::Topology(TopologyChange::Insert { at_index: 0, .. })));
}

#[test]
fn stopping_the_focused_instance_focuses_the_view_of_its_neighbor() {
    let d = desk();
    let focus = DesktopTarget::Instance(d.i1);
    let changes = plan(
        &d.aggregates,
        &NavigationControl::new(),
        Some(&focus),
        FocusDepth::Instance,
        DesktopCommand::StopInstance(d.i1),
    )
    .unwrap();
    assert!(matches!(changes[0], DesktopChange::SetFocus { target: Some(DesktopTarget::View(v)), reason: KeyboardFocusReason::StopInstanceReplacement } if v == d.v));
    assert!(matches!(changes[3], DesktopChange::HideInstance { launcher, instance } if launcher == d.l1 && instance == d.i1));
    assert_eq!(changes.len(), 6);
}

#[test]
fn zoom_steps_and_reset() {
    let d = desk();
    let c = NavigationControl::new();
    let zin = plan(&d.aggregates, &c, None, FocusDepth::Instance, DesktopCommand::Zoom(ZoomChange::In)).unwrap();
    assert!(matches!(zin.as_slice(), [DesktopChange::CommitFocusDepth(FocusDepth::InstanceFullScreen)]));
    let zout = plan(&d.aggregates, &c, None, FocusDepth::Desktop, DesktopCommand::Zoom(ZoomChange::Out)).unwrap();
    assert!(zout.is_empty());
    let focus = DesktopTarget::Launcher(d.l1);
    let reset = plan(&d.aggregates, &c, Some(&focus), FocusDepth::Instance, DesktopCommand::Zoom(ZoomChange::Reset)).unwrap();
    assert!(matches!(reset.as_slice(), [DesktopChange::CommitFocusDepth(FocusDepth::Launcher)]));
}

#[test]
fn navigation_focuses_the_neighbor_and_commits_the_affinity() {
    let d = desk();
    let c = NavigationControl::new();
    let focus = DesktopTarget::Launcher(d.l1);
    let right = plan(&d.aggregates, &c, Some(&focus), FocusDepth::Launcher, DesktopCommand::Navigate(Direction::Right)).unwrap();
    assert!(matches!(right.as_slice(), [DesktopChange::SetFocus { target: Some(DesktopTarget::Launcher(l)), reason: KeyboardFocusReason::Navigate }, DesktopChange::CommitNavigationAffinity(None)] if *l == d.l2));
    let from_instance = DesktopTarget::Instance(d.i1);
    let down = plan(&d.aggregates, &c, Some(&from_instance), FocusDepth::Instance, DesktopCommand::Navigate(Direction::Down)).unwrap();
    assert!(matches!(down.as_slice(), [DesktopChange::SetFocus { target: Some(DesktopTarget::Launcher(l)), .. }, DesktopChange::CommitNavigationAffinity(Some(0))] if *l == d.l3));
    let nothing = plan(&d.aggregates, &c, None, FocusDepth::Instance, DesktopCommand::Navigate(Direction::Down)).unwrap();
    assert!(nothing.is_empty());
}

#[test]
fn navigation_between_sibling_instances_stays_in_the_launcher() {
    let d = desk();
    let focus = DesktopTarget::Instance(d.i1);
    let changes = plan(&d.aggregates, &NavigationControl::new(), Some(&focus), FocusDepth::Instance, DesktopCommand::Navigate(Direction::Right)).unwrap();
    // i2 holds a single view, which takes the focus.
    assert!(matches!(changes[0], DesktopChange::SetFocus { target: Some(DesktopTarget::View(v)), .. } if v == d.v));
}

#[test]
fn navigation_crosses_into_the_next_project() {
    let d = desk();
    let focus = DesktopTarget::Launcher(d.l3);
    let changes = plan(&d.aggregates, &NavigationControl::new(), Some(&focus), FocusDepth::Launcher, DesktopCommand::Navigate(Direction::Down)).unwrap();
    assert!(matches!(changes[0], DesktopChange::SetFocus { target: Some(DesktopTarget::Launcher(l)), .. } if l == d.m));
}

#[test]
fn set_startup_profile_is_a_single_change() {
    let d = desk();
    let changes = plan_project(&d.aggregates, None, ProjectCommand::SetStartupProfile(Some(d.l3))).unwrap();
    assert!(matches!(changes.as_slice(), [DesktopChange::Project(ProjectChange::SetStartupProfile(Some(l)))] if *l == d.l3));
}

use desktop::apply::{apply_topology_change, ApplyError};
use desktop::event_router::{EventRouter, RouterError};
use desktop::configuration::{plan_configuration_request, ConfigurationRequest};
use desktop::id_map::MapError;
use desktop::MoveDirection;

#[test]
fn configuration_add_launcher_goes_right_of_the_requesting_launcher() {
    let d = desk();
    let changes = plan_configuration_request(&d.aggregates, None, FocusDepth::Instance, d.i1, ConfigurationRequest::AddLauncher).unwrap();
    // The slot right of l1 holds l2, which shifts right first.
    assert!(matches!(changes[0], DesktopChange::Project(ProjectChange::MoveLauncher { launcher, placement }) if launcher == d.l2 && placement == place(2, 0)));
    match &changes[1] {
        DesktopChange::Project(ProjectChange::AddLauncher { project, profile, placement, .. }) => {
            assert_eq!(*project, d.p);
            assert_eq!(*placement, place(1, 0));
            assert_eq!(profile.name, "New Launcher");
            assert_eq!(profile.mode, LauncherMode::Visor);
        }
        other => panic!("unexpected {other:?}"),
    }
}

#[test]
fn configuration_add_project_adds_a_project_with_a_launcher() {
    let d = desk();
    let changes = plan_configuration_request(&d.aggregates, None, FocusDepth::Instance, d.i1, ConfigurationRequest::AddProject).unwrap();
    assert_eq!(changes.len(), 5);
    assert!(matches!(&changes[2], DesktopChange::Project(ProjectChange::AddProject { properties, .. }) if properties.name == "New Project"));
    assert!(matches!(&changes[3], DesktopChange::Project(ProjectChange::AddLauncher { placement, .. }) if *placement == place(0, 0)));
    assert!(matches!(&changes[0], DesktopChange::Topology(TopologyChange::Add { after: Some(DesktopTarget::Project(x)), .. }) if *x == d.p));
}

#[test]
fn configuration_remove_by_name() {
    let d = desk();
    let changes = plan_configuration_request(
        &d.aggregates,
        None,
        FocusDepth::Instance,
        d.i1,
        ConfigurationRequest::RemoveLauncher { name: Some("two".to_string()) },
    )
    .unwrap();
    assert!(matches!(changes[1], DesktopChange::Project(ProjectChange::RemoveLauncher(l)) if l == d.l2));
    let none = plan_configuration_request(
        &d.aggregates,
        None,
        FocusDepth::Instance,
        d.i1,
        ConfigurationRequest::RemoveLauncher { name: Some("missing".to_string()) },
    )
    .unwrap();
    assert!(none.is_empty());
    let project = plan_configuration_request(
        &d.aggregates,
        None,
        FocusDepth::Instance,
        d.i1,
        ConfigurationRequest::RemoveProject { name: Some("queue".to_string()) },
    )
    .unwrap();
    assert!(matches!(project.last(), Some(DesktopChange::Topology(TopologyChange::Remove(DesktopTarget::Project(x)))) if *x == d.q));
}

#[test]
fn configuration_move_launcher_swaps_with_the_occupant() {
    let d = desk();
    let changes = plan_configuration_request(
        &d.aggregates,
        None,
        FocusDepth::Instance,
        d.i1,
        ConfigurationRequest::MoveLauncher { direction: MoveDirection::Right },
    )
    .unwrap();
    assert_eq!(changes.len(), 2);
    assert!(matches!(changes[0], DesktopChange::Project(ProjectChange::MoveLauncher { launcher, placement }) if launcher == d.l2 && placement == place(0, 0)));
    assert!(matches!(changes[1], DesktopChange::Project(ProjectChange::MoveLauncher { launcher, placement }) if launcher == d.l1 && placement == place(1, 0)));
    let blocked = plan_configuration_request(
        &d.aggregates,
        None,
        FocusDepth::Instance,
        d.i1,
        ConfigurationRequest::MoveLauncher { direction: MoveDirection::Left },
    )
    .unwrap();
    assert!(blocked.is_empty());
}

#[test]
fn configuration_push_and_resize() {
    let d = desk();
    let pushed = plan_configuration_request(
        &d.aggregates,
        None,
        FocusDepth::Instance,
        d.i1,
        ConfigurationRequest::PushLauncher { direction: MoveDirection::Down },
    )
    .unwrap();
    assert_eq!(pushed.len(), 2);
    let resized = plan_configuration_request(
        &d.aggregates,
        None,
        FocusDepth::InstanceFullScreen,
        d.i1,
        ConfigurationRequest::Resize { width: 800, height: 600 },
    )
    .unwrap();
    assert!(matches!(resized.as_slice(), [DesktopChange::CommitFocusDepth(FocusDepth::Instance), DesktopChange::ResizeAll { width: 800, height: 600 }]));
    let pushed_left = plan_configuration_request(
        &d.aggregates,
        None,
        FocusDepth::Instance,
        d.i1,
        ConfigurationRequest::PushLauncher { direction: MoveDirection::Left },
    )
    .unwrap();
    assert!(pushed_left.is_empty());
}

#[test]
fn applying_project_changes_updates_slots_and_launchers() {
    let mut d = desk();
    let id = LaunchProfileId::new();
    let r = d.aggregates.apply_project_change(ProjectChange::AddLauncher { project: d.q, id, profile: profile(), placement: place(1, 0) });
    assert_eq!(r, Ok(None));
    assert_eq!(d.aggregates.matrix_positions.get(&id), Some(&place(1, 0)));
    assert_eq!(d.aggregates.launchers.get(&id).map(|s| s.mode), Some(LauncherMode::Visor));
    let occupied = d.aggregates.apply_project_change(ProjectChange::AddLauncher {
        project: d.p,
        id: LaunchProfileId::new(),
        profile: profile(),
        placement: place(0, 0),
    });
    assert_eq!(occupied, Err(ApplyError::Matrix(MatrixError::SlotOccupied { column: 0, row: 0 })));
    let moved = d.aggregates.apply_project_change(ProjectChange::MoveLauncher { launcher: d.l3, placement: place(4, 4) });
    assert_eq!(moved, Ok(Some(DesktopTarget::ProjectMatrix(d.p))));
    assert_eq!(d.aggregates.matrix_positions.get(&d.l3), Some(&place(4, 4)));
    assert_eq!(d.aggregates.apply_project_change(ProjectChange::RemoveLauncher(d.l3)), Ok(None));
    assert_eq!(
        d.aggregates.apply_project_change(ProjectChange::RemoveLauncher(d.l3)),
        Err(ApplyError::Registry(MapError::KeyMissing))
    );
    assert_eq!(d.aggregates.apply_project_change(ProjectChange::SetStartupProfile(Some(d.l1))), Ok(None));
    assert_eq!(d.aggregates.startup_profile, Some(d.l1));
    assert_eq!(
        d.aggregates.apply_project_change(ProjectChange::AddProject { id: d.p, properties: ProjectProperties { name: "again".to_string() } }),
        Err(ApplyError::Registry(MapError::KeyExists))
    );
    assert_eq!(d.aggregates.apply_project_change(ProjectChange::RemoveProject(d.q)), Ok(None));
}

#[test]
fn applying_a_slot_removal_shifts_the_row_left() {
    let mut d = desk();
    let r = d.aggregates.apply_project_change(ProjectChange::RemoveSlot {
        project: d.p,
        placement: place(0, 0),
        shifting_policy: RemoveSlotShiftingPolicy::ShiftLeft,
    });
    assert_eq!(r, Ok(Some(DesktopTarget::ProjectMatrix(d.p))));
    assert_eq!(d.aggregates.matrix_positions.get(&d.l2), Some(&place(0, 0)));
    assert_eq!(d.aggregates.matrix_positions.get(&d.l3), Some(&place(0, 1)));
}

#[test]
fn applying_topology_changes() {
    let mut d = desk();
    let mut router: EventRouter<DesktopTarget> = EventRouter::new();
    let h = &mut d.aggregates.hierarchy;
    let new_project = ProjectId::new();
    let r = apply_topology_change(
        &router,
        h,
        TopologyChange::Add { what: DesktopTarget::Project(new_project), under: DesktopTarget::Desktop, after: Some(DesktopTarget::Project(d.p)) },
    );
    assert_eq!(r, Ok(DesktopTarget::Desktop));
    assert_eq!(
        h.get_nested(&DesktopTarget::Desktop),
        &[DesktopTarget::Project(d.p), DesktopTarget::Project(new_project), DesktopTarget::Project(d.q)]
    );
    let instance = InstanceId::new();
    let r = apply_topology_change(
        &router,
        h,
        TopologyChange::Insert { what: DesktopTarget::Instance(instance), at_index: 0, under: DesktopTarget::Launcher(d.l2) },
    );
    assert_eq!(r, Ok(DesktopTarget::Launcher(d.l2)));
    let _ = router.focus(Some(&DesktopTarget::Instance(instance)));
    let r = apply_topology_change(&router, h, TopologyChange::Remove(DesktopTarget::Instance(instance)));
    assert_eq!(r, Err(ApplyError::Router(RouterError::KeyboardFocus)));
    assert!(h.contains(&DesktopTarget::Instance(instance)));
    let _ = router.focus(Some(&DesktopTarget::Launcher(d.l2)));
    let r = apply_topology_change(&router, h, TopologyChange::Remove(DesktopTarget::Instance(instance)));
    assert_eq!(r, Ok(DesktopTarget::Launcher(d.l2)));
    assert!(!h.contains(&DesktopTarget::Instance(instance)));
    let r = apply_topology_change(
        &router,
        h,
        TopologyChange::AddNested { what: vec![DesktopTarget::Instance(d.i1)], under: DesktopTarget::Launcher(d.l3) },
    );
    assert_eq!(r, Err(ApplyError::Hierarchy(desktop::HierarchyError::AlreadyNested)));
}
