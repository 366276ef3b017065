//! The commands that set up the desktop's projects: from a configured project set, or the
//! primary project when none is configured.
use vstd::prelude::*;

use crate::change::ProjectCommand;
use crate::ids::{LaunchProfileId, ProjectId};
use crate::matrix_positions::MatrixPlacement;
use crate::project_configuration::Parameters;
use crate::projects::{LaunchProfile, Launcher, LauncherMode, Project, ProjectProperties, ProjectSet};

verus! {

/// The primary project: its launcher, and the commands that create both.
#[derive(Debug)]
pub struct PrimaryProject {
    pub primary_launcher: LaunchProfileId,
    pub commands: Vec<ProjectCommand>,
}

/// The name of the primary project and of its launcher.
pub open spec fn primary_name() -> Seq<char> {
    seq!['P', 'r', 'i', 'm', 'a', 'r', 'y', ' ', '/', ' ', 'L', 'o', 'c', 'a', 'l']
}

/// The primary project with fresh ids: a project added first, and one band launcher at the
/// first slot of its matrix, both named after the local machine.
pub fn primary_project() -> (r: PrimaryProject)
    ensures
        r.commands@.len() == 2,
        r.commands@[0] matches ProjectCommand::AddProject { properties, after, .. } && properties.name@ == primary_name()
            && after is None,
        r.commands@[1] matches ProjectCommand::AddLauncher { id, profile, placement, .. } && id == r.primary_launcher
            && profile.name@ == primary_name() && profile.mode == LauncherMode::Band && profile.tags@.len() == 0
            && profile.params.0@.len() == 0 && placement == (MatrixPlacement { column: 0, row: 0 }),
        r.commands@[0] matches ProjectCommand::AddProject { id: added, .. } && r.commands@[1] matches ProjectCommand::AddLauncher {
            project,
            ..
        } && project == added,
{
    let primary_project = ProjectId::new();
    let primary_launcher = LaunchProfileId::new();
    proof {
        reveal_strlit("Primary / Local");
    }
    let project_name = "Primary / Local".to_owned();
    let launcher_name = "Primary / Local".to_owned();
    assert(project_name@ =~= primary_name());
    assert(launcher_name@ =~= primary_name());
    let mut commands: Vec<ProjectCommand> = Vec::new();
    commands.push(
        ProjectCommand::AddProject { id: primary_project, properties: ProjectProperties { name: project_name }, after: None },
    );
    commands.push(
        ProjectCommand::AddLauncher {
            project: primary_project,
            id: primary_launcher,
            profile: LaunchProfile {
                name: launcher_name,
                mode: LauncherMode::Band,
                tags: Vec::new(),
                params: Parameters(Vec::new()),
            },
            placement: MatrixPlacement { column: 0, row: 0 },
        },
    );
    PrimaryProject { primary_launcher, commands }
}

/// The command that adds `launcher` to the matrix of `project`.
pub open spec fn launcher_command(project: ProjectId, launcher: Launcher) -> ProjectCommand {
    ProjectCommand::AddLauncher {
        project,
        id: launcher.id,
        profile: launcher.profile,
        placement: launcher.placement,
    }
}

/// The commands that add `project`: the project itself, at the end, then its launchers in order.
pub open spec fn project_command_seq(project: Project) -> Seq<ProjectCommand> {
    seq![ProjectCommand::AddProject { id: project.id, properties: project.properties, after: None }]
        + project.launchers@.map_values(|l: Launcher| launcher_command(project.id, l))
}

/// The commands that add `projects`, one project after the other.
pub open spec fn projects_command_seq(projects: Seq<Project>) -> Seq<ProjectCommand>
    decreases projects.len(),
{
    if projects.len() == 0 {
        Seq::empty()
    } else {
        projects_command_seq(projects.drop_last()) + project_command_seq(projects.last())
    }
}

/// The commands that set up a project set: the startup profile first, then each project with
/// its launchers.
pub open spec fn project_set_command_seq(project_set: ProjectSet) -> Seq<ProjectCommand> {
    seq![ProjectCommand::SetStartupProfile(project_set.start)] + projects_command_seq(project_set.projects@)
}

/// The commands that set up `project_set`.
pub fn project_set_to_commands(project_set: ProjectSet) -> (r: Vec<ProjectCommand>)
    ensures
        r@ == project_set_command_seq(project_set),
{
    let ProjectSet { start, projects } = project_set;
    let ghost all = projects@;
    let mut commands: Vec<ProjectCommand> = Vec::new();
    commands.push(ProjectCommand::SetStartupProfile(start));
    let mut rest = projects;
    let ghost mut done: int = 0;
    while rest.len() > 0
        invariant
            0 <= done <= all.len(),
            rest@ == all.subrange(done, all.len() as int),
            commands@ == seq![ProjectCommand::SetStartupProfile(start)] + projects_command_seq(all.subrange(0, done)),
        decreases rest.len(),
    {
        let project = rest.remove(0);
        proof {
            assert(project == all[done]);
            assert(all.subrange(0, done + 1).drop_last() =~= all.subrange(0, done));
        }
        project_commands(project, &mut commands);
        proof {
            done = done + 1;
            assert(rest@ =~= all.subrange(done, all.len() as int));
        }
    }
    assert(all.subrange(0, done) =~= all);
    commands
}

/// Append the commands that add `project` and its launchers.
pub fn project_commands(project: Project, commands: &mut Vec<ProjectCommand>)
    ensures
        final(commands)@ == old(commands)@ + project_command_seq(project),
{
    let ghost whole = project;
    let Project { id, properties, launchers } = project;
    let ghost all = launchers@;
    commands.push(ProjectCommand::AddProject { id, properties, after: None });
    let ghost start = commands@;
    let mut rest = launchers;
    let ghost mut done: int = 0;
    while rest.len() > 0
        invariant
            0 <= done <= all.len(),
            rest@ == all.subrange(done, all.len() as int),
            commands@ == start + all.subrange(0, done).map_values(|l: Launcher| launcher_command(id, l)),
        decreases rest.len(),
    {
        let launcher = rest.remove(0);
        proof {
            assert(launcher == all[done]);
        }
        launcher_commands(id, launcher, commands);
        proof {
            assert(all.subrange(0, done + 1).map_values(|l: Launcher| launcher_command(id, l)) =~= all.subrange(
                0,
                done,
            ).map_values(|l: Launcher| launcher_command(id, l)).push(launcher_command(id, all[done])));
            done = done + 1;
            assert(rest@ =~= all.subrange(done, all.len() as int));
        }
    }
    assert(all.subrange(0, done) =~= all);
    assert(commands@ =~= old(commands)@ + project_command_seq(whole));
}

/// Append the command that adds `launcher` to the matrix of `project`.
pub fn launcher_commands(project: ProjectId, launcher: Launcher, commands: &mut Vec<ProjectCommand>)
    ensures
        final(commands)@ == old(commands)@.push(launcher_command(project, launcher)),
{
    let Launcher { id, profile, placement } = launcher;
    commands.push(ProjectCommand::AddLauncher { project, id, profile, placement });
}

} // verus!
