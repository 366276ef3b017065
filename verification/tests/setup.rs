use desktop::change::ProjectCommand;
use desktop::project_configuration::Parameters;
use desktop::projects::{LaunchProfile, Launcher, LauncherMode, Project, ProjectProperties, ProjectSet};
use desktop::setup::project_set_to_commands;
use desktop::{LaunchProfileId, MatrixPlacement, ProjectId};

fn launcher(id: u128, column: u32, row: u32) -> Launcher {
    Launcher {
        id: LaunchProfileId(id),
        profile: LaunchProfile {
            name: format!("launcher {id}"),
            mode: LauncherMode::Visor,
            tags: Vec::new(),
            params: Parameters(Vec::new()),
        },
        placement: MatrixPlacement { column, row },
    }
}

fn project(id: u128, name: &str, launchers: Vec<Launcher>) -> Project {
    Project { id: ProjectId(id), properties: ProjectProperties { name: name.to_string() }, launchers }
}

#[test]
fn a_project_set_becomes_commands_in_configuration_order() {
    let set = ProjectSet {
        start: Some(LaunchProfileId(12)),
        projects: vec![
            project(1, "first", vec![launcher(11, 0, 0), launcher(12, 1, 0)]),
            project(2, "second", vec![]),
            project(3, "third", vec![launcher(31, 0, 2)]),
        ],
    };
    let commands = project_set_to_commands(set);
    assert_eq!(commands.len(), 7);
    assert!(matches!(commands[0], ProjectCommand::SetStartupProfile(Some(LaunchProfileId(12)))));
    let summary: Vec<String> = commands[1..]
        .iter()
        .map(|c| match c {
            ProjectCommand::AddProject { id, properties, after: None } => format!("project {} {}", id.0, properties.name),
            ProjectCommand::AddLauncher { project, id, profile, placement } => {
                format!("launcher {} in {} at {},{} named {}", id.0, project.0, placement.column, placement.row, profile.name)
            }
            other => format!("unexpected {other:?}"),
        })
        .collect();
    assert_eq!(
        summary,
        vec![
            "project 1 first",
            "launcher 11 in 1 at 0,0 named launcher 11",
            "launcher 12 in 1 at 1,0 named launcher 12",
            "project 2 second",
            "project 3 third",
            "launcher 31 in 3 at 0,2 named launcher 31",
        ]
    );
}

#[test]
fn an_empty_project_set_only_sets_the_startup_profile() {
    let commands = project_set_to_commands(ProjectSet { start: None, projects: Vec::new() });
    assert_eq!(commands.len(), 1);
    assert!(matches!(commands[0], ProjectCommand::SetStartupProfile(None)));
}
