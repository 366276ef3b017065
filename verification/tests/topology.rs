use desktop::{DesktopTarget, DesktopTopology, InstanceId, LaunchProfileId, OrderedHierarchy, ProjectId, ViewId};

struct Setup {
    topology: DesktopTopology,
    project: ProjectId,
    launchers: Vec<LaunchProfileId>,
    instance: InstanceId,
    view: ViewId,
}

fn setup() -> Setup {
    let project = ProjectId::new();
    let launchers = vec![LaunchProfileId::new(), LaunchProfileId::new()];
    let instance = InstanceId::new();
    let view = ViewId::new();
    let mut topology = OrderedHierarchy::new();
    topology.add(DesktopTarget::Desktop, DesktopTarget::Project(project)).unwrap();
    topology
        .add(DesktopTarget::Project(project), DesktopTarget::ProjectHeader(project))
        .unwrap();
    topology
        .add(DesktopTarget::Project(project), DesktopTarget::ProjectMatrix(project))
        .unwrap();
    for launcher in &launchers {
        topology
            .add(DesktopTarget::ProjectMatrix(project), DesktopTarget::Launcher(*launcher))
            .unwrap();
    }
    topology
        .add(DesktopTarget::Launcher(launchers[1]), DesktopTarget::Instance(instance))
        .unwrap();
    topology
        .add(DesktopTarget::Instance(instance), DesktopTarget::View(view))
        .unwrap();
    Setup { topology, project, launchers, instance, view }
}

#[test]
fn launchers_and_instances_are_listed_in_order() {
    let s = setup();
    assert_eq!(s.topology.matrix_launchers(s.project), s.launchers);
    assert_eq!(s.topology.launcher_instances(s.launchers[1]), vec![s.instance]);
    assert!(s.topology.launcher_instances(s.launchers[0]).is_empty());
}

#[test]
fn owners_of_targets_are_found_upwards() {
    let s = setup();
    let view = DesktopTarget::View(s.view);
    assert_eq!(s.topology.launcher_of_instance(s.instance), s.launchers[1]);
    assert_eq!(s.topology.project_of_launcher(s.launchers[0]), s.project);
    assert_eq!(s.topology.instance_of_target(&view), Some(s.instance));
    assert_eq!(s.topology.launcher_of_target(&view), Some(s.launchers[1]));
    assert_eq!(s.topology.project_of_target(&view), Some(s.project));
    assert_eq!(
        s.topology.project_of_target(&DesktopTarget::ProjectHeader(s.project)),
        Some(s.project)
    );
}

#[test]
fn targets_above_instances_have_no_instance() {
    let s = setup();
    let launcher = DesktopTarget::Launcher(s.launchers[1]);
    assert_eq!(s.topology.instance_of_target(&launcher), None);
    assert_eq!(s.topology.launcher_of_target(&DesktopTarget::Desktop), None);
    assert_eq!(s.topology.project_of_target(&DesktopTarget::Desktop), None);
    let stray = DesktopTarget::View(ViewId::new());
    assert_eq!(s.topology.project_of_target(&stray), None);
    assert_eq!(s.topology.instance_of_target(&stray), None);
}
