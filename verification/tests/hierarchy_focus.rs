use desktop::{DesktopTarget, InstanceId, LaunchProfileId, OrderedHierarchy, ViewId};

fn instance_id() -> InstanceId {
    InstanceId::new()
}

fn view_id() -> ViewId {
    ViewId::new()
}

fn launcher_id() -> LaunchProfileId {
    LaunchProfileId::new()
}

fn hierarchy_with_instances(instances: &[InstanceId]) -> (OrderedHierarchy<DesktopTarget>, LaunchProfileId) {
    let launcher = launcher_id();

    let mut hierarchy = OrderedHierarchy::default();
    hierarchy
        .add(DesktopTarget::Desktop, DesktopTarget::Launcher(launcher))
        .unwrap();

    for instance in instances {
        hierarchy
            .add(DesktopTarget::Launcher(launcher), DesktopTarget::Instance(*instance))
            .unwrap();
    }

    (hierarchy, launcher)
}

#[test]
fn resolve_neighbor_for_stopping_instance_returns_none_when_instance_is_not_focused() {
    let first = instance_id();
    let second = instance_id();
    let (hierarchy, _launcher) = hierarchy_with_instances(&[first, second]);

    let focused = DesktopTarget::Instance(second);
    let neighbor = hierarchy.resolve_neighbor_for_stopping_instance(Some(&focused), first);

    assert_eq!(neighbor, None);
}

#[test]
fn resolve_neighbor_for_stopping_instance_returns_sibling_when_focused() {
    let first = instance_id();
    let second = instance_id();
    let (hierarchy, _launcher) = hierarchy_with_instances(&[first, second]);

    let focused = DesktopTarget::Instance(first);
    let neighbor = hierarchy.resolve_neighbor_for_stopping_instance(Some(&focused), first);

    assert_eq!(neighbor, Some(DesktopTarget::Instance(second)));
}

#[test]
fn resolve_replacement_focus_for_stopping_instance_returns_none_when_target_not_in_focus_path() {
    let first = instance_id();
    let second = instance_id();
    let (hierarchy, _launcher) = hierarchy_with_instances(&[first, second]);

    let focused = DesktopTarget::Instance(second);
    let replacement = hierarchy.resolve_replacement_focus_for_stopping_instance(Some(&focused), first);

    assert_eq!(replacement, None);
}

#[test]
fn resolve_replacement_focus_for_stopping_instance_prefers_neighbor_view() {
    let first = instance_id();
    let second = instance_id();
    let view = view_id();
    let (mut hierarchy, _launcher) = hierarchy_with_instances(&[first, second]);

    hierarchy
        .add(DesktopTarget::Instance(second), DesktopTarget::View(view))
        .unwrap();

    let focused = DesktopTarget::Instance(first);
    let replacement = hierarchy.resolve_replacement_focus_for_stopping_instance(Some(&focused), first);

    assert_eq!(replacement, Some(DesktopTarget::View(view)));
}

#[test]
fn resolve_replacement_focus_for_stopping_instance_works_when_focus_is_view_inside_instance() {
    let first = instance_id();
    let second = instance_id();
    let first_view = view_id();
    let second_view = view_id();
    let (mut hierarchy, _launcher) = hierarchy_with_instances(&[first, second]);

    hierarchy
        .add(DesktopTarget::Instance(first), DesktopTarget::View(first_view))
        .unwrap();
    hierarchy
        .add(DesktopTarget::Instance(second), DesktopTarget::View(second_view))
        .unwrap();

    let focused = DesktopTarget::View(first_view);
    let replacement = hierarchy.resolve_replacement_focus_for_stopping_instance(Some(&focused), first);

    assert_eq!(replacement, Some(DesktopTarget::View(second_view)));
}

#[test]
fn resolve_replacement_focus_for_stopping_instance_falls_back_to_parent() {
    let instance = instance_id();
    let (hierarchy, launcher) = hierarchy_with_instances(&[instance]);

    let focused = DesktopTarget::Instance(instance);
    let replacement = hierarchy.resolve_replacement_focus_for_stopping_instance(Some(&focused), instance);

    assert_eq!(replacement, Some(DesktopTarget::Launcher(launcher)));
}

#[test]
fn resolve_neighbor_focus_target_prefers_single_view_of_instance() {
    let instance = instance_id();
    let view = view_id();
    let (mut hierarchy, _launcher) = hierarchy_with_instances(&[instance]);

    hierarchy
        .add(DesktopTarget::Instance(instance), DesktopTarget::View(view))
        .unwrap();

    let focus_target = hierarchy.resolve_neighbor_focus_target(&DesktopTarget::Instance(instance));
    assert_eq!(focus_target, DesktopTarget::View(view));
}

#[test]
fn resolve_neighbor_focus_target_keeps_instance_without_view() {
    let instance = instance_id();
    let (hierarchy, _launcher) = hierarchy_with_instances(&[instance]);

    let focus_target = hierarchy.resolve_neighbor_focus_target(&DesktopTarget::Instance(instance));
    assert_eq!(focus_target, DesktopTarget::Instance(instance));
}

#[test]
fn resolve_neighbor_focus_target_keeps_non_instance_target() {
    let launcher = launcher_id();
    let hierarchy = OrderedHierarchy::default();

    let focus_target = hierarchy.resolve_neighbor_focus_target(&DesktopTarget::Launcher(launcher));
    assert_eq!(focus_target, DesktopTarget::Launcher(launcher));
}

#[test]
fn resolve_neighbor_focus_target_keeps_instance_with_two_views() {
    let instance = instance_id();
    let (mut hierarchy, _launcher) = hierarchy_with_instances(&[instance]);
    hierarchy
        .add(DesktopTarget::Instance(instance), DesktopTarget::View(view_id()))
        .unwrap();
    hierarchy
        .add(DesktopTarget::Instance(instance), DesktopTarget::View(view_id()))
        .unwrap();

    let focus_target = hierarchy.resolve_neighbor_focus_target(&DesktopTarget::Instance(instance));
    assert_eq!(focus_target, DesktopTarget::Instance(instance));
}

#[test]
fn replacement_prefers_the_neighbor_before_a_middle_instance() {
    let first = instance_id();
    let second = instance_id();
    let third = instance_id();
    let (hierarchy, _launcher) = hierarchy_with_instances(&[first, second, third]);

    let focused = DesktopTarget::Instance(second);
    let replacement = hierarchy.resolve_replacement_focus_for_stopping_instance(Some(&focused), second);
    assert_eq!(replacement, Some(DesktopTarget::Instance(first)));
}

#[test]
fn path_contains_target_sees_ancestors_only() {
    let first = instance_id();
    let second = instance_id();
    let (hierarchy, launcher) = hierarchy_with_instances(&[first, second]);

    let focused = DesktopTarget::Instance(first);
    assert!(hierarchy.path_contains_target(Some(&focused), &DesktopTarget::Launcher(launcher)));
    assert!(hierarchy.path_contains_target(Some(&focused), &DesktopTarget::Desktop));
    assert!(!hierarchy.path_contains_target(Some(&focused), &DesktopTarget::Instance(second)));
    assert!(!hierarchy.path_contains_target(None, &DesktopTarget::Desktop));
}

#[test]
fn neighbor_for_stopping_instance_is_none_without_focus() {
    let first = instance_id();
    let second = instance_id();
    let (hierarchy, _launcher) = hierarchy_with_instances(&[first, second]);

    assert_eq!(hierarchy.resolve_neighbor_for_stopping_instance(None, first), None);
}
