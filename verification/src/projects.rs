//! Projects and launchers as the desktop's logic sees them.
use vstd::prelude::*;

use crate::ids::{InstanceId, LaunchProfileId, ProjectId};
use crate::matrix_positions::MatrixPlacement;
use crate::project_configuration::{Parameters, ScopedTag};

verus! {

/// How a launcher presents its instances.
#[derive(Debug, Clone, Copy, PartialEq, Eq, Structural)]
pub enum LauncherMode {
    /// One instance at a time is in front; the others wait behind it.
    Visor,
    /// All instances are laid out side by side.
    Band,
}

/// The properties of a project.
#[derive(Debug, Clone)]
pub struct ProjectProperties {
    pub name: String,
}

/// What a launcher starts, and how it presents what it started.
#[derive(Debug)]
pub struct LaunchProfile {
    pub name: String,
    pub mode: LauncherMode,
    pub tags: Vec<ScopedTag>,
    pub params: Parameters,
}

/// The state of a launcher that the desktop's logic reads: its name and mode, and the instance
/// that keeps the focus within it.
#[derive(Debug, Clone)]
pub struct LauncherState {
    pub name: String,
    pub mode: LauncherMode,
    pub focus_anchor_instance: Option<InstanceId>,
}

/// A configured launcher: its id, what it starts, and its slot in the project's matrix.
#[derive(Debug)]
pub struct Launcher {
    pub id: LaunchProfileId,
    pub profile: LaunchProfile,
    pub placement: MatrixPlacement,
}

/// A configured project and its launchers, in order.
#[derive(Debug)]
pub struct Project {
    pub id: ProjectId,
    pub properties: ProjectProperties,
    pub launchers: Vec<Launcher>,
}

/// The configured projects, in order, and the launcher the desktop starts with.
#[derive(Debug)]
pub struct ProjectSet {
    pub start: Option<LaunchProfileId>,
    pub projects: Vec<Project>,
}

} // verus!
