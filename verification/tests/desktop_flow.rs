use desktop::change::DesktopChange;
use desktop::desktop_input::{input_changes, unfocus_pointer_if_path_contains, update_pointer_feedback, FeedbackEvent};
use desktop::event_router::{EventRouter, EventTransition, NavigationTarget, ProcessOutcome, RouterEvent};
use desktop::id_map::IdMap;
use desktop::navigation::{
    concrete_navigation_target, launcher_removal_focus, project_removal_focus, resolve_navigation_origin, NavigationOrigin,
};
use desktop::planning::Aggregates;
use desktop::projects::{LauncherMode, LauncherState};
use desktop::setup::primary_project;
use desktop::change::ProjectCommand;
use desktop::{
    Direction, DesktopTarget, FocusPath, InstanceId, KeyboardFocusReason, LaunchProfileId, MatrixPlacement, MatrixPositions,
    OrderedHierarchy, ProjectId, ViewId,
};

fn place(c: u32, r: u32) -> MatrixPlacement {
    MatrixPlacement { column: c, row: r }
}

/// One project with a visor launcher holding three instances (the second with a view), and a
/// band launcher to its right.
fn setup() -> (Aggregates, ProjectId, LaunchProfileId, LaunchProfileId, Vec<InstanceId>, ViewId) {
    let project = ProjectId::new();
    let (visor, band) = (LaunchProfileId::new(), LaunchProfileId::new());
    let instances = vec![InstanceId::new(), InstanceId::new(), InstanceId::new()];
    let view = ViewId::new();
    let mut hierarchy = OrderedHierarchy::new();
    hierarchy.add(DesktopTarget::Desktop, DesktopTarget::Project(project)).unwrap();
    hierarchy.add(DesktopTarget::Project(project), DesktopTarget::ProjectMatrix(project)).unwrap();
    hierarchy.add(DesktopTarget::ProjectMatrix(project), DesktopTarget::Launcher(visor)).unwrap();
    hierarchy.add(DesktopTarget::ProjectMatrix(project), DesktopTarget::Launcher(band)).unwrap();
    for i in &instances {
        hierarchy.add(DesktopTarget::Launcher(visor), DesktopTarget::Instance(*i)).unwrap();
    }
    hierarchy.add(DesktopTarget::Instance(instances[1]), DesktopTarget::View(view)).unwrap();
    let mut positions = MatrixPositions::new();
    positions.place(&[], visor, place(0, 0)).unwrap();
    positions.place(&[], band, place(1, 0)).unwrap();
    let mut launchers = IdMap::new();
    launchers
        .insert(visor, LauncherState { name: "visor".to_string(), mode: LauncherMode::Visor, focus_anchor_instance: Some(instances[2]) })
        .unwrap();
    launchers
        .insert(band, LauncherState { name: "band".to_string(), mode: LauncherMode::Band, focus_anchor_instance: None })
        .unwrap();
    let aggregates = Aggregates { hierarchy, matrix_positions: positions, projects: IdMap::new(), launchers, startup_profile: None };
    (aggregates, project, visor, band, instances, view)
}

#[test]
fn a_visor_launcher_is_entered_at_its_focus_anchor() {
    let (a, _, visor, _, instances, _) = setup();
    assert_eq!(
        concrete_navigation_target(&a.hierarchy, &a.launchers, visor, Direction::Right),
        DesktopTarget::Instance(instances[2])
    );
}

#[test]
fn a_band_launcher_without_instances_is_entered_itself() {
    let (a, _, _, band, _, _) = setup();
    assert_eq!(concrete_navigation_target(&a.hierarchy, &a.launchers, band, Direction::Left), DesktopTarget::Launcher(band));
    let unknown = LaunchProfileId::new();
    assert_eq!(concrete_navigation_target(&a.hierarchy, &a.launchers, unknown, Direction::Left), DesktopTarget::Launcher(unknown));
}

#[test]
fn navigation_origins() {
    let (a, _, visor, _, instances, view) = setup();
    assert_eq!(resolve_navigation_origin(&a.hierarchy, &DesktopTarget::Launcher(visor)), Some(NavigationOrigin::Launcher(visor)));
    assert_eq!(
        resolve_navigation_origin(&a.hierarchy, &DesktopTarget::View(view)),
        Some(NavigationOrigin::Child { launcher: visor, index: 1 })
    );
    assert_eq!(resolve_navigation_origin(&a.hierarchy, &DesktopTarget::Desktop), None);
    assert_eq!(
        resolve_navigation_origin(&a.hierarchy, &DesktopTarget::Instance(instances[2])),
        Some(NavigationOrigin::Child { launcher: visor, index: 2 })
    );
}

#[test]
fn removal_focus_targets() {
    let (a, project, visor, band, _, _) = setup();
    assert_eq!(launcher_removal_focus(&a.hierarchy, &a.matrix_positions, visor), DesktopTarget::Launcher(band));
    assert_eq!(launcher_removal_focus(&a.hierarchy, &a.matrix_positions, band), DesktopTarget::ProjectMatrix(project));
    assert_eq!(project_removal_focus(&a.hierarchy, project), DesktopTarget::Desktop);
}

#[test]
fn the_focused_instance_becomes_the_anchor_of_its_launcher() {
    let (mut a, _, visor, _, instances, view) = setup();
    let focus = DesktopTarget::View(view);
    a.sync_focused_launcher_anchor(Some(&focus));
    assert_eq!(a.launchers.get(&visor).unwrap().focus_anchor_instance, Some(instances[1]));
    a.sync_focused_launcher_anchor(None);
    assert_eq!(a.launchers.get(&visor).unwrap().focus_anchor_instance, Some(instances[1]));
}

#[test]
fn instance_parent_of_paths() {
    let (a, project, visor, _, instances, view) = setup();
    let path = a.hierarchy.resolve_path(Some(&DesktopTarget::View(view)));
    let parent = path.instance_parent().unwrap();
    assert_eq!(
        parent.as_slice(),
        &[DesktopTarget::Desktop, DesktopTarget::Project(project), DesktopTarget::ProjectMatrix(project), DesktopTarget::Launcher(visor)]
    );
    let launcher_path = a.hierarchy.resolve_path(Some(&DesktopTarget::Launcher(visor)));
    assert_eq!(launcher_path.instance_parent().unwrap().len(), 4);
    assert!(FocusPath::new(DesktopTarget::Desktop).instance_parent().is_none());
    let _ = instances;
}

#[test]
fn input_outcomes_become_changes() {
    let mut router: EventRouter<DesktopTarget> = EventRouter::new();
    let target = DesktopTarget::Desktop;
    let outcome = router.process(RouterEvent::CursorMoved { any_pressed: false, hit: Some(target) });
    let changes = input_changes(outcome);
    assert!(matches!(changes.as_slice(), [DesktopChange::ForwardEvents(_)]));
    let focus = input_changes(ProcessOutcome::Focus(Some(NavigationTarget { target, forward_event: true })));
    assert!(matches!(focus[0], DesktopChange::SetFocus { target: Some(DesktopTarget::Desktop), reason: KeyboardFocusReason::InputTransition }));
    match &focus[1] {
        DesktopChange::ForwardEvents(t) => assert_eq!(t.as_slice(), &[EventTransition::Send(target)]),
        other => panic!("unexpected {other:?}"),
    }
    let clear = input_changes(ProcessOutcome::Focus(None));
    assert!(matches!(clear.as_slice(), [DesktopChange::SetFocus { target: None, .. }]));
}

#[test]
fn pointer_feedback_mode() {
    assert!(!update_pointer_feedback(true, FeedbackEvent::KeyPressed));
    assert!(update_pointer_feedback(false, FeedbackEvent::PointerInput));
    assert!(!update_pointer_feedback(false, FeedbackEvent::CursorMoved { deliberate: false }));
    assert!(update_pointer_feedback(false, FeedbackEvent::CursorMoved { deliberate: true }));
    assert!(update_pointer_feedback(true, FeedbackEvent::Other));
}

#[test]
fn removing_a_target_on_the_pointer_path_removes_the_pointer_focus() {
    let (a, _, visor, _, instances, _) = setup();
    let mut router: EventRouter<DesktopTarget> = EventRouter::new();
    let _ = router.process(RouterEvent::CursorMoved { any_pressed: false, hit: Some(DesktopTarget::Instance(instances[0])) });
    let none = unfocus_pointer_if_path_contains(&mut router, &a.hierarchy, &DesktopTarget::Instance(instances[1]));
    assert!(none.as_slice().is_empty());
    let t = unfocus_pointer_if_path_contains(&mut router, &a.hierarchy, &DesktopTarget::Launcher(visor));
    assert_eq!(t.as_slice().len(), 1);
    assert_eq!(router.pointer_focus(), None);
}

#[test]
fn the_primary_project_adds_a_band_launcher() {
    let primary = primary_project();
    assert_eq!(primary.commands.len(), 2);
    match (&primary.commands[0], &primary.commands[1]) {
        (ProjectCommand::AddProject { id, properties, after: None }, ProjectCommand::AddLauncher { project, id: launcher, profile, placement }) => {
            assert_eq!(project, id);
            assert_eq!(*launcher, primary.primary_launcher);
            assert_eq!(properties.name, "Primary / Local");
            assert_eq!(profile.mode, LauncherMode::Band);
            assert_eq!(*placement, place(0, 0));
        }
        other => panic!("unexpected {other:?}"),
    }
}

#[test]
fn the_view_of_an_instance_is_its_only_nested_view() {
    let (aggregates, _, _, _, instances, view) = setup();
    assert_eq!(aggregates.view_of_instance(instances[1]), Some(view));
    assert_eq!(aggregates.view_of_instance(instances[0]), None);
    assert_eq!(aggregates.view_of_instance(InstanceId::new()), None);
}
