use desktop::change::{DesktopChange, ProjectChange, TopologyChange};
use desktop::desktop_state::{ChangeWork, DesktopState};
use desktop::desktop_system::{animating_instances, effective_pacing, RenderPacing};
use desktop::TransactionEffectsMode;
use desktop::event_router::{EventRouter, EventTransition};
use desktop::id_map::IdMap;
use desktop::planning::Aggregates;
use desktop::projects::{LauncherMode, LauncherState, ProjectProperties};
use desktop::{
    DesktopTarget, FocusDepth, InstanceId, KeyboardFocusReason, LaunchProfileId, MatrixPlacement, MatrixPositions,
    NavigationControl, OrderedHierarchy, ProjectId, ViewId,
};

struct Desk {
    state: DesktopState,
    project: ProjectId,
    launcher: LaunchProfileId,
    instance: InstanceId,
}

/// One project with one launcher that holds one instance.
fn desk() -> Desk {
    let project = ProjectId(1);
    let launcher = LaunchProfileId(2);
    let instance = InstanceId(3);
    let mut hierarchy = OrderedHierarchy::new();
    hierarchy.add(DesktopTarget::Desktop, DesktopTarget::Project(project)).unwrap();
    hierarchy.add(DesktopTarget::Project(project), DesktopTarget::ProjectMatrix(project)).unwrap();
    hierarchy.add(DesktopTarget::ProjectMatrix(project), DesktopTarget::Launcher(launcher)).unwrap();
    hierarchy.add(DesktopTarget::Launcher(launcher), DesktopTarget::Instance(instance)).unwrap();
    let mut positions = MatrixPositions::new();
    positions.place(&[], launcher, MatrixPlacement { column: 0, row: 0 }).unwrap();
    let mut launchers = IdMap::new();
    launchers
        .insert(launcher, LauncherState { name: "shell".to_string(), mode: LauncherMode::Band, focus_anchor_instance: None })
        .unwrap();
    let mut projects = IdMap::new();
    projects.insert(project, ProjectProperties { name: "work".to_string() }).unwrap();
    let aggregates = Aggregates { hierarchy, matrix_positions: positions, projects, launchers, startup_profile: None };
    let state = DesktopState {
        aggregates,
        event_router: EventRouter::new(),
        navigation_control: NavigationControl::new(),
        focus_depth: FocusDepth::Launcher,
        panel_width: 800,
        panel_height: 600,
    };
    Desk { state, project, launcher, instance }
}

#[test]
fn spawning_uses_the_panel_size() {
    let mut d = desk();
    let (output, work) = d.state.apply_change(DesktopChange::SpawnInstance(InstanceId(9)));
    assert!(output.unwrap().surface.size_invalid.is_empty());
    assert!(matches!(work, ChangeWork::Spawn { instance: InstanceId(9), width: 800, height: 600 }));
}

#[test]
fn resizing_all_sets_the_panel_size_and_measures_the_desktop() {
    let mut d = desk();
    let (output, work) = d.state.apply_change(DesktopChange::ResizeAll { width: 1024, height: 768 });
    assert_eq!(output.unwrap().surface.size_invalid, vec![DesktopTarget::Desktop]);
    assert!(matches!(work, ChangeWork::ResizeInstances { width: 1024, height: 768 }));
    assert_eq!((d.state.panel_width, d.state.panel_height), (1024, 768));
}

#[test]
fn setting_the_focus_measures_both_ends_and_forwards_the_change() {
    let mut d = desk();
    let instance = DesktopTarget::Instance(d.instance);
    let (output, work) = d.state.apply_change(DesktopChange::SetFocus {
        target: Some(instance),
        reason: KeyboardFocusReason::InputTransition,
    });
    assert_eq!(output.unwrap().surface.size_invalid, vec![instance]);
    match work {
        ChangeWork::Forward(t) => {
            assert_eq!(t.as_slice(), &[EventTransition::ChangeKeyboardFocus { from: None, to: Some(instance) }])
        }
        other => panic!("unexpected {other:?}"),
    }
    let launcher = DesktopTarget::Launcher(d.launcher);
    let (output, _) = d.state.apply_change(DesktopChange::SetFocus { target: Some(launcher), reason: KeyboardFocusReason::Navigate });
    assert_eq!(output.unwrap().surface.size_invalid, vec![instance, launcher]);
    assert_eq!(d.state.event_router.focused(), Some(&launcher));
}

#[test]
fn a_focus_depth_change_measures_the_focus_only_when_it_changes() {
    let mut d = desk();
    let instance = DesktopTarget::Instance(d.instance);
    let _ = d.state.apply_change(DesktopChange::SetFocus { target: Some(instance), reason: KeyboardFocusReason::Navigate });
    let (output, _) = d.state.apply_change(DesktopChange::CommitFocusDepth(FocusDepth::Launcher));
    assert!(output.unwrap().surface.size_invalid.is_empty());
    let (output, work) = d.state.apply_change(DesktopChange::CommitFocusDepth(FocusDepth::Instance));
    assert_eq!(output.unwrap().surface.size_invalid, vec![instance]);
    assert!(matches!(work, ChangeWork::Nothing));
    assert_eq!(d.state.focus_depth, FocusDepth::Instance);
}

#[test]
fn removing_the_focused_instance_moves_the_focus_to_its_launcher_first() {
    let mut d = desk();
    let instance = DesktopTarget::Instance(d.instance);
    let launcher = DesktopTarget::Launcher(d.launcher);
    let _ = d.state.apply_change(DesktopChange::SetFocus { target: Some(instance), reason: KeyboardFocusReason::Navigate });
    let (output, work) = d.state.apply_change(DesktopChange::Topology(TopologyChange::Remove(instance)));
    let output = output.unwrap();
    assert_eq!(output.surface.size_invalid, vec![launcher, instance]);
    match work {
        ChangeWork::Forward(t) => {
            assert_eq!(t.as_slice(), &[EventTransition::ChangeKeyboardFocus { from: Some(instance), to: Some(launcher) }])
        }
        other => panic!("unexpected {other:?}"),
    }
    assert_eq!(d.state.event_router.focused(), Some(&launcher));
    assert!(!d.state.aggregates.hierarchy.contains(&instance));
}

#[test]
fn moving_a_launcher_measures_its_matrix() {
    let mut d = desk();
    let placement = MatrixPlacement { column: 2, row: 1 };
    let (output, work) =
        d.state.apply_change(DesktopChange::Project(ProjectChange::MoveLauncher { launcher: d.launcher, placement }));
    assert_eq!(output.unwrap().surface.size_invalid, vec![DesktopTarget::ProjectMatrix(d.project)]);
    assert!(matches!(work, ChangeWork::Nothing));
    assert_eq!(d.state.aggregates.matrix_positions.get(&d.launcher), Some(&placement));
}

#[test]
fn committing_the_navigation_affinity_changes_nothing_else() {
    let mut d = desk();
    let (output, work) = d.state.apply_change(DesktopChange::CommitNavigationAffinity(Some(3)));
    assert!(output.unwrap().surface.size_invalid.is_empty());
    assert!(matches!(work, ChangeWork::Nothing));
    assert_eq!(d.state.navigation_control.plan_column_affinity(desktop::Direction::Up, None), Some(3));
}

#[test]
fn the_window_title_names_the_focused_launcher_and_project() {
    let mut d = desk();
    let primary = "Terminal".to_string();
    assert_eq!(d.state.window_title(&primary, String::new()), "Terminal");
    let _ = d.state.apply_change(DesktopChange::SetFocus {
        target: Some(DesktopTarget::Instance(d.instance)),
        reason: KeyboardFocusReason::Navigate,
    });
    assert_eq!(d.state.window_title(&primary, "vim".to_string()), "vim - shell - work");
    assert_eq!(d.state.window_title(&primary, String::new()), "Terminal - shell - work");
    let _ = d.state.apply_change(DesktopChange::SetFocus {
        target: Some(DesktopTarget::ProjectMatrix(d.project)),
        reason: KeyboardFocusReason::Navigate,
    });
    assert_eq!(d.state.window_title(&primary, String::new()), "Terminal - work");
    let _ = d.state.apply_change(DesktopChange::SetFocus { target: Some(DesktopTarget::Desktop), reason: KeyboardFocusReason::Navigate });
    assert_eq!(d.state.window_title(&primary, String::new()), "Terminal");
}

#[test]
fn a_new_primary_view_of_the_focused_instance_takes_the_focus() {
    let mut d = desk();
    let instance = DesktopTarget::Instance(d.instance);
    let output = d.state.view_created(d.instance, ViewId(7), true);
    assert!(output.changes.is_empty());
    assert_eq!(output.surface.size_invalid, vec![instance]);
    let _ = d.state.apply_change(DesktopChange::SetFocus { target: Some(instance), reason: KeyboardFocusReason::Navigate });
    assert!(d.state.view_created(d.instance, ViewId(7), false).changes.is_empty());
    let output = d.state.view_created(d.instance, ViewId(7), true);
    assert_eq!(output.changes.len(), 2);
    assert!(matches!(
        output.changes[0],
        DesktopChange::SetFocus { target: Some(DesktopTarget::View(ViewId(7))), reason: KeyboardFocusReason::PromotePrimaryView }
    ));
    assert!(matches!(output.changes[1], DesktopChange::CommitNavigationAffinity(None)));
}

#[test]
fn pressed_buttons_make_a_live_transaction_a_gesture_that_keeps_the_camera() {
    let mode = TransactionEffectsMode::live_effects_mode(true);
    assert_eq!(mode, TransactionEffectsMode::UserGestureActive);
    assert!(!mode.permit_camera_moves());
    assert!(mode.permit_animations());
    let mode = TransactionEffectsMode::live_effects_mode(false);
    assert_eq!(mode, TransactionEffectsMode::Normal);
    assert!(mode.permit_camera_moves());
}

#[test]
fn one_smooth_instance_makes_the_desktop_render_smoothly() {
    assert_eq!(effective_pacing(&[]), RenderPacing::Fast);
    assert_eq!(effective_pacing(&[RenderPacing::Fast, RenderPacing::Fast]), RenderPacing::Fast);
    assert_eq!(effective_pacing(&[RenderPacing::Fast, RenderPacing::Smooth]), RenderPacing::Smooth);
    let instances = [
        (InstanceId(1), RenderPacing::Smooth),
        (InstanceId(2), RenderPacing::Fast),
        (InstanceId(3), RenderPacing::Smooth),
    ];
    assert_eq!(animating_instances(&instances), vec![InstanceId(1), InstanceId(3)]);
}
