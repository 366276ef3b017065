//! The changes the desktop system applies, and the commands that are planned into them.
use vstd::prelude::*;

use crate::desktop_system::{FocusDepth, KeyboardFocusReason};
use crate::event_router::{EventTransition, EventTransitions};
use crate::ids::{DesktopTarget, InstanceId, LaunchProfileId, ProjectId};
use crate::matrix_positions::{MatrixPlacement, RemoveSlotShiftingPolicy};
use crate::navigation::Direction;
use crate::projects::{LaunchProfile, ProjectProperties};

verus! {

/// A change of the zoom level.
#[derive(Debug, Clone, Copy, PartialEq, Eq, Structural)]
pub enum ZoomChange {
    In,
    Out,
    /// Back to the focus depth of the focused target.
    Reset,
}

/// A change of the projects and their launchers.
#[derive(Debug)]
pub enum ProjectChange {
    AddProject { id: ProjectId, properties: ProjectProperties },
    RemoveProject(ProjectId),
    AddLauncher { project: ProjectId, id: LaunchProfileId, profile: LaunchProfile, placement: MatrixPlacement },
    MoveLauncher { launcher: LaunchProfileId, placement: MatrixPlacement },
    RemoveLauncher(LaunchProfileId),
    RemoveSlot { project: ProjectId, placement: MatrixPlacement, shifting_policy: RemoveSlotShiftingPolicy },
    SetStartupProfile(Option<LaunchProfileId>),
}

/// A change of the topology.
#[derive(Debug)]
pub enum TopologyChange {
    Add { what: DesktopTarget, under: DesktopTarget, after: Option<DesktopTarget> },
    AddNested { what: Vec<DesktopTarget>, under: DesktopTarget },
    Insert { what: DesktopTarget, at_index: usize, under: DesktopTarget },
    /// Removes the target with everything nested in it.
    Remove(DesktopTarget),
}

/// A topology change as a value.
pub enum TopologyChangeView {
    Add { what: DesktopTarget, under: DesktopTarget, after: Option<DesktopTarget> },
    AddNested { what: Seq<DesktopTarget>, under: DesktopTarget },
    Insert { what: DesktopTarget, at_index: usize, under: DesktopTarget },
    Remove(DesktopTarget),
}

impl View for TopologyChange {
    type V = TopologyChangeView;

    open spec fn view(&self) -> TopologyChangeView {
        match self {
            TopologyChange::Add { what, under, after } => TopologyChangeView::Add { what: *what, under: *under, after: *after },
            TopologyChange::AddNested { what, under } => TopologyChangeView::AddNested { what: what@, under: *under },
            TopologyChange::Insert { what, at_index, under } => TopologyChangeView::Insert {
                what: *what,
                at_index: *at_index,
                under: *under,
            },
            TopologyChange::Remove(t) => TopologyChangeView::Remove(*t),
        }
    }
}

/// A change the desktop system applies.
///
/// `SpawnInstance` and `PresentInstance` say that an instance is to be spawned and presented;
/// what they are spawned and presented with is held by the caller that asked for them.
#[derive(Debug)]
pub enum DesktopChange {
    Project(ProjectChange),
    SpawnInstance(InstanceId),
    PresentInstance { launcher: LaunchProfileId, instance: InstanceId },
    ShutdownInstance(InstanceId),
    HideInstance { launcher: LaunchProfileId, instance: InstanceId },
    /// `None` completely removes the focus from the application.
    SetFocus { target: Option<DesktopTarget>, reason: KeyboardFocusReason },
    /// Commits the navigation column affinity; `None` clears it.
    CommitNavigationAffinity(Option<u32>),
    CommitFocusDepth(FocusDepth),
    /// Resize all instances to the given panel size.
    ResizeAll { width: u32, height: u32 },
    Topology(TopologyChange),
    /// Deliver the input event being processed along these transitions.
    ForwardEvents(EventTransitions<DesktopTarget>),
}

/// A desktop change as a value.
pub enum ChangeView {
    Project(ProjectChange),
    SpawnInstance(InstanceId),
    PresentInstance { launcher: LaunchProfileId, instance: InstanceId },
    ShutdownInstance(InstanceId),
    HideInstance { launcher: LaunchProfileId, instance: InstanceId },
    SetFocus { target: Option<DesktopTarget>, reason: KeyboardFocusReason },
    CommitNavigationAffinity(Option<u32>),
    CommitFocusDepth(FocusDepth),
    ResizeAll { width: u32, height: u32 },
    Topology(TopologyChangeView),
    ForwardEvents(Seq<EventTransition<DesktopTarget>>),
}

impl View for DesktopChange {
    type V = ChangeView;

    open spec fn view(&self) -> ChangeView {
        match self {
            DesktopChange::Project(c) => ChangeView::Project(*c),
            DesktopChange::SpawnInstance(i) => ChangeView::SpawnInstance(*i),
            DesktopChange::PresentInstance { launcher, instance } => ChangeView::PresentInstance {
                launcher: *launcher,
                instance: *instance,
            },
            DesktopChange::ShutdownInstance(i) => ChangeView::ShutdownInstance(*i),
            DesktopChange::HideInstance { launcher, instance } => ChangeView::HideInstance {
                launcher: *launcher,
                instance: *instance,
            },
            DesktopChange::SetFocus { target, reason } => ChangeView::SetFocus { target: *target, reason: *reason },
            DesktopChange::CommitNavigationAffinity(a) => ChangeView::CommitNavigationAffinity(*a),
            DesktopChange::CommitFocusDepth(d) => ChangeView::CommitFocusDepth(*d),
            DesktopChange::ResizeAll { width, height } => ChangeView::ResizeAll { width: *width, height: *height },
            DesktopChange::Topology(t) => ChangeView::Topology(t@),
            DesktopChange::ForwardEvents(t) => ChangeView::ForwardEvents(t@),
        }
    }
}

/// The values of a list of changes.
pub open spec fn views(s: Seq<DesktopChange>) -> Seq<ChangeView> {
    s.map_values(|c: DesktopChange| c@)
}

pub proof fn lemma_views_append(a: Seq<DesktopChange>, b: Seq<DesktopChange>)
    ensures
        views(a + b) == views(a) + views(b),
{
    assert(views(a + b) =~= views(a) + views(b));
}

pub proof fn lemma_views_push(a: Seq<DesktopChange>, c: DesktopChange)
    ensures
        views(a.push(c)) == views(a).push(c@),
{
    assert(views(a.push(c)) =~= views(a).push(c@));
}

/// Append `other` to `changes`.
pub fn append_changes(changes: &mut Vec<DesktopChange>, other: Vec<DesktopChange>)
    ensures
        views(final(changes)@) == views(old(changes)@) + views(other@),
{
    let mut other = other;
    proof {
        lemma_views_append(changes@, other@);
    }
    changes.append(&mut other);
}

/// Append one change to `changes`.
pub fn push_change(changes: &mut Vec<DesktopChange>, change: DesktopChange)
    ensures
        views(final(changes)@) == views(old(changes)@).push(change@),
{
    proof {
        lemma_views_push(changes@, change);
    }
    changes.push(change);
}

/// The changes of a focus transition: the focus change, and a reset of the navigation's column
/// affinity unless the focus moves by navigation.
pub open spec fn spec_set_focus(target: Option<DesktopTarget>, reason: KeyboardFocusReason) -> Seq<ChangeView> {
    if reason != KeyboardFocusReason::Navigate {
        seq![ChangeView::SetFocus { target, reason }, ChangeView::CommitNavigationAffinity(None)]
    } else {
        seq![ChangeView::SetFocus { target, reason }]
    }
}

/// Constructs the changes for a focus transition.
pub fn set_focus(target: Option<DesktopTarget>, reason: KeyboardFocusReason) -> (r: Vec<DesktopChange>)
    ensures
        views(r@) == spec_set_focus(target, reason),
{
    let mut changes: Vec<DesktopChange> = Vec::new();
    push_change(&mut changes, DesktopChange::SetFocus { target, reason });
    if reason.resets_navigation_affinity() {
        push_change(&mut changes, DesktopChange::CommitNavigationAffinity(None));
    }
    proof {
        assert(views(Seq::<DesktopChange>::empty()) =~= Seq::<ChangeView>::empty());
    }
    changes
}

/// A command for the projects and their launchers.
#[derive(Debug)]
pub enum ProjectCommand {
    AddProject { id: ProjectId, properties: ProjectProperties, after: Option<ProjectId> },
    RemoveProject(ProjectId),
    AddLauncher { project: ProjectId, id: LaunchProfileId, profile: LaunchProfile, placement: MatrixPlacement },
    RemoveLauncher(LaunchProfileId),
    SetStartupProfile(Option<LaunchProfileId>),
}

/// A command the desktop system executes.
///
/// `StartInstance` presents `instance` under `launcher`; `spawn` says whether it has still to be
/// spawned (the caller holds what it is spawned and presented with).
#[derive(Debug)]
pub enum DesktopCommand {
    Project(ProjectCommand),
    StartInstance { launcher: LaunchProfileId, instance: InstanceId, spawn: bool },
    StopInstance(InstanceId),
    Navigate(Direction),
    Zoom(ZoomChange),
}

} // verus!
