//! The modes and levels the desktop system decides by.
use vstd::prelude::*;

use crate::ids::{DesktopTarget, InstanceId};

verus! {

/// What the user is currently focusing on.
///
/// As a general rule: The focus depth is always selectable by the user, but the implementation by
/// the system is optional and depends on the currently focused target.
#[derive(Debug, Clone, Copy, PartialEq, Eq, Structural)]
pub enum FocusDepth {
    InstanceFullScreen,
    Instance,
    Launcher,
    Row,
    Project,
    Desktop,
}

/// The level of a focus depth, from the innermost (0) to the outermost (5).
pub open spec fn depth_level(d: FocusDepth) -> int {
    match d {
        FocusDepth::InstanceFullScreen => 0,
        FocusDepth::Instance => 1,
        FocusDepth::Launcher => 2,
        FocusDepth::Row => 3,
        FocusDepth::Project => 4,
        FocusDepth::Desktop => 5,
    }
}

/// The focus depth at a level, if there is one.
pub open spec fn depth_at(level: int) -> Option<FocusDepth> {
    if level == 0 {
        Some(FocusDepth::InstanceFullScreen)
    } else if level == 1 {
        Some(FocusDepth::Instance)
    } else if level == 2 {
        Some(FocusDepth::Launcher)
    } else if level == 3 {
        Some(FocusDepth::Row)
    } else if level == 4 {
        Some(FocusDepth::Project)
    } else if level == 5 {
        Some(FocusDepth::Desktop)
    } else {
        None
    }
}

impl FocusDepth {
    /// One level further in, if there is one.
    pub fn zoom_in(self) -> (r: Option<FocusDepth>)
        ensures
            r == depth_at(depth_level(self) - 1),
    {
        match self {
            FocusDepth::InstanceFullScreen => None,
            FocusDepth::Instance => Some(FocusDepth::InstanceFullScreen),
            FocusDepth::Launcher => Some(FocusDepth::Instance),
            FocusDepth::Row => Some(FocusDepth::Launcher),
            FocusDepth::Project => Some(FocusDepth::Row),
            FocusDepth::Desktop => Some(FocusDepth::Project),
        }
    }

    /// One level further out, if there is one.
    pub fn zoom_out(self) -> (r: Option<FocusDepth>)
        ensures
            r == depth_at(depth_level(self) + 1),
    {
        match self {
            FocusDepth::InstanceFullScreen => Some(FocusDepth::Instance),
            FocusDepth::Instance => Some(FocusDepth::Launcher),
            FocusDepth::Launcher => Some(FocusDepth::Row),
            FocusDepth::Row => Some(FocusDepth::Project),
            FocusDepth::Project => Some(FocusDepth::Desktop),
            FocusDepth::Desktop => None,
        }
    }
}

/// Zooming out right after zooming in (and the other way round) returns to the depth one started
/// from.
pub proof fn law_zoom_round_trip(d: FocusDepth)
    ensures
        depth_at(depth_level(d) - 1) matches Some(i) ==> depth_at(depth_level(i) + 1) == Some(d),
        depth_at(depth_level(d) + 1) matches Some(o) ==> depth_at(depth_level(o) - 1) == Some(d),
{
}

impl Default for FocusDepth {
    /// The instance depth.
    fn default() -> (d: FocusDepth)
        ensures
            d == FocusDepth::Instance,
    {
        FocusDepth::Instance
    }
}

/// The focus depth that fits a target.
pub open spec fn spec_focus_depth_of(target: DesktopTarget) -> FocusDepth {
    match target {
        DesktopTarget::View(_) | DesktopTarget::Instance(_) => FocusDepth::Instance,
        DesktopTarget::Launcher(_) => FocusDepth::Launcher,
        DesktopTarget::Project(_) | DesktopTarget::ProjectHeader(_) | DesktopTarget::ProjectMatrix(_) => FocusDepth::Project,
        DesktopTarget::Desktop => FocusDepth::Desktop,
    }
}

/// The focus depth that fits a target best.
pub fn focus_depth_from_target(target: &DesktopTarget) -> (d: FocusDepth)
    ensures
        d == spec_focus_depth_of(*target),
{
    match target {
        DesktopTarget::View(_) => FocusDepth::Instance,
        DesktopTarget::Instance(_) => FocusDepth::Instance,
        DesktopTarget::Launcher(_) => FocusDepth::Launcher,
        DesktopTarget::Project(_) | DesktopTarget::ProjectHeader(_) | DesktopTarget::ProjectMatrix(_) => FocusDepth::Project,
        DesktopTarget::Desktop => FocusDepth::Desktop,
    }
}

/// A project, its header and its matrix are shown at the project depth: one zoom step in from the
/// depth of the desktop. The row depth belongs to no target; it is reached only by zooming.
pub proof fn law_project_targets_sit_one_step_below_the_desktop(p: crate::ids::ProjectId, t: DesktopTarget)
    ensures
        depth_at(depth_level(spec_focus_depth_of(DesktopTarget::Desktop)) - 1) == Some(
            spec_focus_depth_of(DesktopTarget::Project(p)),
        ),
        spec_focus_depth_of(DesktopTarget::ProjectHeader(p)) == spec_focus_depth_of(DesktopTarget::Project(p)),
        spec_focus_depth_of(DesktopTarget::ProjectMatrix(p)) == spec_focus_depth_of(DesktopTarget::Project(p)),
        spec_focus_depth_of(t) != FocusDepth::Row,
{
}

/// Why the keyboard focus changes.
#[derive(Debug, Clone, Copy, PartialEq, Eq, Structural)]
pub enum KeyboardFocusReason {
    InputTransition,
    StopInstanceReplacement,
    PresentInstance,
    Navigate,
    PromotePrimaryView,
}

impl KeyboardFocusReason {
    /// Every focus change but a navigation step forgets the navigation's column affinity.
    pub fn resets_navigation_affinity(self) -> (r: bool)
        ensures
            r == (self != KeyboardFocusReason::Navigate),
    {
        match self {
            KeyboardFocusReason::Navigate => false,
            KeyboardFocusReason::InputTransition
            | KeyboardFocusReason::StopInstanceReplacement
            | KeyboardFocusReason::PresentInstance
            | KeyboardFocusReason::PromotePrimaryView => true,
        }
    }
}

/// How the effects of a transaction may show.
#[derive(Debug, Clone, Copy, PartialEq, Eq, Structural)]
pub enum TransactionEffectsMode {
    Normal,
    Setup,
    /// Set while mouse buttons are pressed: the user is focusing on something specific,
    /// selecting something, etc. The camera does not move then.
    UserGestureActive,
}

impl TransactionEffectsMode {
    /// Everything but setup animates.
    pub fn permit_animations(self) -> (r: bool)
        ensures
            r == (self != TransactionEffectsMode::Setup),
    {
        match self {
            TransactionEffectsMode::Normal => true,
            TransactionEffectsMode::Setup => false,
            TransactionEffectsMode::UserGestureActive => true,
        }
    }

    /// The mode of a live transaction (one that is not part of the setup): a user gesture is
    /// active while any pointer button is pressed.
    pub fn live_effects_mode(any_buttons_pressed: bool) -> (r: TransactionEffectsMode)
        ensures
            r == if any_buttons_pressed {
                TransactionEffectsMode::UserGestureActive
            } else {
                TransactionEffectsMode::Normal
            },
    {
        if any_buttons_pressed {
            TransactionEffectsMode::UserGestureActive
        } else {
            TransactionEffectsMode::Normal
        }
    }

    /// The camera stays while a user gesture is active.
    pub fn permit_camera_moves(self) -> (r: bool)
        ensures
            r == (self != TransactionEffectsMode::UserGestureActive),
    {
        match self {
            TransactionEffectsMode::Normal => true,
            TransactionEffectsMode::Setup => true,
            TransactionEffectsMode::UserGestureActive => false,
        }
    }

    /// The mode of a live transaction: a user gesture is active while pointer buttons are
    /// pressed.
    pub fn live(any_buttons_pressed: bool) -> (r: TransactionEffectsMode)
        ensures
            r == (if any_buttons_pressed {
                TransactionEffectsMode::UserGestureActive
            } else {
                TransactionEffectsMode::Normal
            }),
    {
        if any_buttons_pressed {
            TransactionEffectsMode::UserGestureActive
        } else {
            TransactionEffectsMode::Normal
        }
    }
}

impl Default for TransactionEffectsMode {
    fn default() -> (m: TransactionEffectsMode)
        ensures
            m == TransactionEffectsMode::Normal,
    {
        TransactionEffectsMode::Normal
    }
}

/// How the camera follows its desired position.
#[derive(Debug, Clone, Copy, PartialEq, Eq, Structural)]
pub enum CameraPresentationMode {
    Animate,
    Snap,
    Freeze,
}

impl CameraPresentationMode {
    pub fn permit_camera_moves(self) -> (r: bool)
        ensures
            r == (self != CameraPresentationMode::Freeze),
    {
        match self {
            Self::Animate | Self::Snap => true,
            Self::Freeze => false,
        }
    }
}

/// How often an instance wants frames: as fast as changes come, or smoothly every frame.
#[derive(Debug, Clone, Copy, PartialEq, Eq, Structural)]
pub enum RenderPacing {
    Fast,
    Smooth,
}

/// The pacing the desktop renders with: smooth as soon as one instance wants it.
pub fn effective_pacing(pacings: &[RenderPacing]) -> (r: RenderPacing)
    ensures
        r == if exists|i: int| 0 <= i < pacings@.len() && pacings@[i] == RenderPacing::Smooth {
            RenderPacing::Smooth
        } else {
            RenderPacing::Fast
        },
{
    let mut i: usize = 0;
    while i < pacings.len()
        invariant
            i <= pacings@.len(),
            forall|j: int| 0 <= j < i ==> pacings@[j] != RenderPacing::Smooth,
        decreases pacings@.len() - i,
    {
        if pacings[i] == RenderPacing::Smooth {
            return RenderPacing::Smooth;
        }
        i += 1;
    }
    RenderPacing::Fast
}

/// The instances that want smooth frames, in the order given.
pub open spec fn smooth_instances(instances: Seq<(InstanceId, RenderPacing)>) -> Seq<InstanceId>
    decreases instances.len(),
{
    if instances.len() == 0 {
        Seq::empty()
    } else {
        let rest = smooth_instances(instances.drop_last());
        if instances.last().1 == RenderPacing::Smooth {
            rest.push(instances.last().0)
        } else {
            rest
        }
    }
}

/// The instances that are animating: those that want smooth frames.
pub fn animating_instances(instances: &[(InstanceId, RenderPacing)]) -> (r: Vec<InstanceId>)
    ensures
        r@ == smooth_instances(instances@),
{
    let mut r: Vec<InstanceId> = Vec::new();
    let mut i: usize = 0;
    while i < instances.len()
        invariant
            i <= instances@.len(),
            r@ == smooth_instances(instances@.take(i as int)),
        decreases instances@.len() - i,
    {
        proof {
            assert(instances@.take(i + 1).drop_last() =~= instances@.take(i as int));
        }
        let (id, pacing) = instances[i];
        if pacing == RenderPacing::Smooth {
            r.push(id);
        }
        i += 1;
    }
    assert(instances@.take(instances@.len() as int) =~= instances@);
    r
}

} // verus!
