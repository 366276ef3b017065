//! Keyboard navigation between launchers and instances.
use vstd::prelude::*;

use crate::focus_path::parent_of;
use crate::hierarchy_focus::spec_neighbor_focus_target;
use crate::id_map::IdMap;
use crate::ids::{DesktopTarget, InstanceId, LaunchProfileId, ProjectId};
use crate::matrix_navigation::{child_navigation_spec, launcher_navigation_spec, MatrixNavigation};
use crate::matrix_positions::{MatrixPlacement, MatrixPositions};
use crate::ordered_hierarchy::{spec_nested, HierarchyView};
use crate::projects::{LauncherMode, LauncherState};
use crate::topology::{
    desktop_shape, instance_ids, lemma_instance_ids_no_duplicates, matrix_parent, DesktopTopology,
};

verus! {

#[derive(Debug, Clone, Copy, PartialEq, Eq, Structural)]
pub enum Direction {
    Left,
    Right,
    Up,
    Down,
}

#[derive(Debug, Clone, Copy, PartialEq, Eq, Structural)]
pub enum HorizontalDirection {
    Left,
    Right,
}

#[derive(Debug, Clone, Copy, PartialEq, Eq, Structural)]
pub enum VerticalDirection {
    Up,
    Down,
}

impl Direction {
    pub fn horizontal(self) -> (r: Option<HorizontalDirection>)
        ensures
            r == match self {
                Direction::Left => Some(HorizontalDirection::Left),
                Direction::Right => Some(HorizontalDirection::Right),
                _ => None,
            },
    {
        match self {
            Direction::Left => Some(HorizontalDirection::Left),
            Direction::Right => Some(HorizontalDirection::Right),
            Direction::Up | Direction::Down => None,
        }
    }

    pub fn vertical(self) -> (r: Option<VerticalDirection>)
        ensures
            r == match self {
                Direction::Up => Some(VerticalDirection::Up),
                Direction::Down => Some(VerticalDirection::Down),
                _ => None,
            },
    {
        match self {
            Direction::Up => Some(VerticalDirection::Up),
            Direction::Down => Some(VerticalDirection::Down),
            Direction::Left | Direction::Right => None,
        }
    }
}

/// The column affinity of a sequence of vertical navigation steps.
#[derive(Debug, Clone, Copy, PartialEq, Eq, Structural)]
pub struct NavigationControl {
    column_affinity: Option<u32>,
}

/// The column affinity a navigation step would produce: horizontal moves clear it, the first
/// vertical move latches the origin column, later vertical moves keep the latched column.
pub open spec fn spec_plan_column_affinity(current: Option<u32>, direction: Direction, origin: Option<MatrixPlacement>) -> Option<u32> {
    match direction {
        Direction::Left | Direction::Right => None,
        Direction::Up | Direction::Down => match current {
            None => match origin {
                Some(o) => Some(o.column),
                None => None,
            },
            Some(c) => Some(c),
        },
    }
}

impl NavigationControl {
    /// The latched column, if any.
    pub closed spec fn affinity(&self) -> Option<u32> {
        self.column_affinity
    }

    /// No column latched.
    pub fn new() -> (c: NavigationControl)
        ensures
            c.affinity() is None,
    {
        NavigationControl { column_affinity: None }
    }

    /// Computes the column affinity a navigation step would produce, without mutating.
    ///
    /// The returned value is also the preferred column to feed into matrix navigation.
    pub fn plan_column_affinity(&self, direction: Direction, origin: Option<MatrixPlacement>) -> (r: Option<u32>)
        ensures
            r == spec_plan_column_affinity(self.affinity(), direction, origin),
    {
        if direction.horizontal().is_some() {
            return None;
        }
        if direction.vertical().is_some() && self.column_affinity.is_none() {
            return match origin {
                Some(origin) => Some(origin.column),
                None => None,
            };
        }
        self.column_affinity
    }

    pub fn commit_column_affinity(&mut self, column_affinity: Option<u32>)
        ensures
            final(self).affinity() == column_affinity,
    {
        self.column_affinity = column_affinity;
    }
}

/// Once latched, the column stays across any number of vertical steps, whatever the origins.
pub proof fn law_vertical_steps_keep_affinity(c: u32, direction: Direction, origin: Option<MatrixPlacement>)
    requires
        direction == Direction::Up || direction == Direction::Down,
    ensures
        spec_plan_column_affinity(Some(c), direction, origin) == Some(c),
{
}

impl Default for NavigationControl {
    fn default() -> (c: NavigationControl)
        ensures
            c.affinity() is None,
    {
        NavigationControl::new()
    }
}

/// Where a navigation step starts: at a launcher, or at the instance at `index` of a launcher.
#[derive(Debug, Clone, Copy, PartialEq, Eq, Structural)]
pub enum NavigationOrigin {
    Launcher(LaunchProfileId),
    Child { launcher: LaunchProfileId, index: usize },
}

/// The launcher a navigation origin belongs to.
pub open spec fn origin_launcher(origin: NavigationOrigin) -> LaunchProfileId {
    match origin {
        NavigationOrigin::Launcher(l) => l,
        NavigationOrigin::Child { launcher, .. } => launcher,
    }
}

/// The matrix slot of the launcher a navigation starts at.
pub fn navigation_origin_placement(matrix_positions: &MatrixPositions, origin: NavigationOrigin) -> (r: Option<MatrixPlacement>)
    requires
        matrix_positions.wf(),
    ensures
        r == (if matrix_positions@.contains_key(origin_launcher(origin)) {
            Some(matrix_positions@[origin_launcher(origin)])
        } else {
            None
        }),
{
    let launcher_id = match origin {
        NavigationOrigin::Launcher(launcher_id) => launcher_id,
        NavigationOrigin::Child { launcher, .. } => launcher,
    };
    match matrix_positions.get(&launcher_id) {
        Some(p) => Some(*p),
        None => None,
    }
}

/// The instance of a launcher that a navigation step lands on.
pub open spec fn spec_concrete_instance_index(instance_count: usize, direction: Direction, preferred_index: Option<usize>) -> Option<usize> {
    if instance_count == 0 {
        None
    } else if preferred_index matches Some(p) && p < instance_count {
        preferred_index
    } else {
        match direction {
            Direction::Left => Some((instance_count - 1) as usize),
            _ => Some(0),
        }
    }
}

/// Picks the instance of a launcher that a navigation step lands on: the preferred one when it
/// exists, else the last one when moving left and the first one otherwise.
pub fn select_concrete_instance_index(instance_count: usize, direction: Direction, preferred_index: Option<usize>) -> (r: Option<usize>)
    ensures
        r == spec_concrete_instance_index(instance_count, direction, preferred_index),
{
    if instance_count == 0 {
        return None;
    }
    if let Some(preferred_index) = preferred_index {
        if preferred_index < instance_count {
            return Some(preferred_index);
        }
    }
    match direction {
        Direction::Left => Some(instance_count - 1),
        Direction::Right | Direction::Up | Direction::Down => Some(0),
    }
}

/// The origin of a navigation step from an instance: its place among the instances of its
/// launcher.
pub open spec fn instance_origin(m: HierarchyView<DesktopTarget>, instance: InstanceId) -> Option<NavigationOrigin> {
    match parent_of(m, DesktopTarget::Instance(instance)) {
        Some(DesktopTarget::Launcher(l)) => {
            let ids = instance_ids(spec_nested(m, DesktopTarget::Launcher(l)));
            if ids.contains(instance) {
                Some(NavigationOrigin::Child { launcher: l, index: ids.index_of(instance) as usize })
            } else {
                None
            }
        },
        _ => None,
    }
}

/// Where a navigation step from `from` starts: a launcher starts at itself, an instance (or the
/// view of one) at its place in its launcher; other targets do not navigate.
pub open spec fn spec_navigation_origin(m: HierarchyView<DesktopTarget>, from: DesktopTarget) -> Option<NavigationOrigin> {
    match from {
        DesktopTarget::Launcher(l) => Some(NavigationOrigin::Launcher(l)),
        DesktopTarget::Instance(i) => instance_origin(m, i),
        DesktopTarget::View(v) => match parent_of(m, DesktopTarget::View(v)) {
            Some(DesktopTarget::Instance(i)) => instance_origin(m, i),
            _ => None,
        },
        _ => None,
    }
}

/// The slot of the launcher of a navigation origin.
pub open spec fn origin_placement(positions: Map<LaunchProfileId, MatrixPlacement>, origin: NavigationOrigin) -> Option<MatrixPlacement> {
    if positions.contains_key(origin_launcher(origin)) {
        Some(positions[origin_launcher(origin)])
    } else {
        None
    }
}

/// `r` is where a navigation step from `origin` lands.
pub open spec fn origin_navigation_spec(
    m: HierarchyView<DesktopTarget>,
    positions: Map<LaunchProfileId, MatrixPlacement>,
    states: Map<LaunchProfileId, LauncherState>,
    origin: NavigationOrigin,
    direction: Direction,
    preferred_column: Option<u32>,
    r: Option<DesktopTarget>,
) -> bool {
    match origin {
        NavigationOrigin::Launcher(l) => launcher_navigation_spec(m, positions, l, direction, preferred_column, r),
        NavigationOrigin::Child { launcher, index } => child_navigation_spec(
            m,
            positions,
            states.contains_key(launcher),
            launcher,
            index,
            direction,
            preferred_column,
            r,
        ),
    }
}

/// The instance of a launcher that a step onto it focuses: in visor mode its focus anchor when
/// that is one of its instances, else the edge instance the step comes from; the launcher itself
/// when it has no instances or is unknown.
pub open spec fn spec_concrete_target(
    m: HierarchyView<DesktopTarget>,
    states: Map<LaunchProfileId, LauncherState>,
    launcher: LaunchProfileId,
    direction: Direction,
) -> DesktopTarget {
    if !states.contains_key(launcher) {
        DesktopTarget::Launcher(launcher)
    } else {
        let state = states[launcher];
        let ids = instance_ids(spec_nested(m, DesktopTarget::Launcher(launcher)));
        let preferred = match (state.mode, state.focus_anchor_instance) {
            (LauncherMode::Visor, Some(f)) => if ids.contains(f) {
                Some(ids.index_of(f) as usize)
            } else {
                None
            },
            _ => None,
        };
        match spec_concrete_instance_index(ids.len() as usize, direction, preferred) {
            Some(k) => DesktopTarget::Instance(ids[k as int]),
            None => DesktopTarget::Launcher(launcher),
        }
    }
}

/// The focusable target a raw navigation result stands for.
pub open spec fn spec_normalize_target(
    m: HierarchyView<DesktopTarget>,
    states: Map<LaunchProfileId, LauncherState>,
    target: DesktopTarget,
    direction: Direction,
) -> DesktopTarget {
    let t = match target {
        DesktopTarget::Launcher(l) => spec_concrete_target(m, states, l, direction),
        _ => target,
    };
    spec_neighbor_focus_target(m, t)
}

/// A planned navigation step: the target to focus and the column affinity to commit.
#[derive(Debug, Clone, Copy, PartialEq, Eq, Structural)]
pub struct NavigationPlan {
    pub candidate: DesktopTarget,
    pub column_affinity: Option<u32>,
}

/// `r` is the plan of a navigation step from `from`.
pub open spec fn navigation_plan_spec(
    m: HierarchyView<DesktopTarget>,
    positions: Map<LaunchProfileId, MatrixPlacement>,
    states: Map<LaunchProfileId, LauncherState>,
    affinity: Option<u32>,
    from: DesktopTarget,
    direction: Direction,
    r: Option<NavigationPlan>,
) -> bool {
    match spec_navigation_origin(m, from) {
        None => r is None,
        Some(origin) => {
            let column_affinity = spec_plan_column_affinity(affinity, direction, origin_placement(positions, origin));
            exists|t: Option<DesktopTarget>|
                #[trigger] origin_navigation_spec(m, positions, states, origin, direction, column_affinity, t) && match t {
                    None => r is None,
                    Some(target) => r == Some(
                        NavigationPlan { candidate: spec_normalize_target(m, states, target, direction), column_affinity },
                    ),
                }
        },
    }
}

/// The position of `instance` among the instances of `launcher`.
fn instance_index(hierarchy: &DesktopTopology, launcher: LaunchProfileId, instance: InstanceId) -> (r: Option<usize>)
    requires
        hierarchy.wf(),
        desktop_shape(hierarchy@),
    ensures
        ({
            let ids = instance_ids(spec_nested(hierarchy@, DesktopTarget::Launcher(launcher)));
            r == if ids.contains(instance) {
                Some(ids.index_of(instance) as usize)
            } else {
                None::<usize>
            }
        }),
{
    let ghost m = hierarchy@;
    proof {
        assert(crate::topology::all_instances(spec_nested(m, DesktopTarget::Launcher(launcher))));
        hierarchy.lemma_links();
        if m.contains_key(DesktopTarget::Launcher(launcher)) {
            assert(m[DesktopTarget::Launcher(launcher)].nested.no_duplicates());
        }
        lemma_instance_ids_no_duplicates(spec_nested(m, DesktopTarget::Launcher(launcher)));
    }
    let instances = hierarchy.launcher_instances(launcher);
    let mut i: usize = 0;
    while i < instances.len()
        invariant
            i <= instances@.len(),
            instances@ == instance_ids(spec_nested(hierarchy@, DesktopTarget::Launcher(launcher))),
            instances@.no_duplicates(),
            forall|j: int| 0 <= j < i ==> instances@[j] != instance,
        decreases instances@.len() - i,
    {
        if instances[i].0 == instance.0 {
            proof {
                assert(instances@[i as int] == instance);
                crate::id_map::lemma_index_of_unique(instances@, i as int);
            }
            return Some(i);
        }
        i += 1;
    }
    None
}

/// Where a navigation step from `from` starts.
pub fn resolve_navigation_origin(hierarchy: &DesktopTopology, from: &DesktopTarget) -> (r: Option<NavigationOrigin>)
    requires
        hierarchy.wf(),
        desktop_shape(hierarchy@),
    ensures
        r == spec_navigation_origin(hierarchy@, *from),
{
    let instance = match from {
        DesktopTarget::Launcher(launcher_id) => return Some(NavigationOrigin::Launcher(*launcher_id)),
        DesktopTarget::Instance(instance_id) => *instance_id,
        DesktopTarget::View(view_id) => match hierarchy.parent(&DesktopTarget::View(*view_id)) {
            Some(DesktopTarget::Instance(instance_id)) => *instance_id,
            _ => return None,
        },
        _ => return None,
    };
    let launcher = match hierarchy.parent(&DesktopTarget::Instance(instance)) {
        Some(DesktopTarget::Launcher(launcher_id)) => *launcher_id,
        _ => return None,
    };
    match instance_index(hierarchy, launcher, instance) {
        Some(index) => Some(NavigationOrigin::Child { launcher, index }),
        None => None,
    }
}

/// Where a navigation step from `origin` lands.
pub fn navigate_from_origin(
    matrix_navigation: MatrixNavigation<'_>,
    launchers: &IdMap<LaunchProfileId, LauncherState>,
    origin: NavigationOrigin,
    direction: Direction,
    preferred_column: Option<u32>,
) -> (r: Option<DesktopTarget>)
    requires
        matrix_navigation.wf(),
        launchers.wf(),
        origin matches NavigationOrigin::Child { launcher, index } ==> index < spec_nested(
            matrix_navigation.topology(),
            DesktopTarget::Launcher(launcher),
        ).len(),
    ensures
        origin_navigation_spec(
            matrix_navigation.topology(),
            matrix_navigation.slots(),
            launchers@,
            origin,
            direction,
            preferred_column,
            r,
        ),
{
    match origin {
        NavigationOrigin::Launcher(launcher) => matrix_navigation.navigate_from_launcher(launcher, direction, preferred_column),
        NavigationOrigin::Child { launcher, index } => matrix_navigation.navigate_from_child(
            launchers,
            launcher,
            index,
            direction,
            preferred_column,
        ),
    }
}

/// Chooses a concrete focus target for a launcher: the preferred instance for its mode and the
/// direction, or the launcher itself.
pub fn concrete_navigation_target(
    topology: &DesktopTopology,
    launchers: &IdMap<LaunchProfileId, LauncherState>,
    launcher_id: LaunchProfileId,
    direction: Direction,
) -> (r: DesktopTarget)
    requires
        topology.wf(),
        launchers.wf(),
        desktop_shape(topology@),
    ensures
        r == spec_concrete_target(topology@, launchers@, launcher_id, direction),
{
    let (mode, focus_anchor_instance) = match launchers.get(&launcher_id) {
        Some(state) => (state.mode, state.focus_anchor_instance),
        None => return DesktopTarget::Launcher(launcher_id),
    };
    proof {
        assert(crate::topology::all_instances(spec_nested(topology@, DesktopTarget::Launcher(launcher_id))));
    }
    let instances = topology.launcher_instances(launcher_id);
    let preferred_index = match (mode, focus_anchor_instance) {
        (LauncherMode::Visor, Some(focused)) => instance_index(topology, launcher_id, focused),
        _ => None,
    };
    match select_concrete_instance_index(instances.len(), direction, preferred_index) {
        Some(target_index) => DesktopTarget::Instance(instances[target_index]),
        None => DesktopTarget::Launcher(launcher_id),
    }
}

/// Normalizes a raw navigation result into a concrete, focusable target.
pub fn normalize_navigation_target(
    topology: &DesktopTopology,
    launchers: &IdMap<LaunchProfileId, LauncherState>,
    target: DesktopTarget,
    direction: Direction,
) -> (r: DesktopTarget)
    requires
        topology.wf(),
        launchers.wf(),
        desktop_shape(topology@),
    ensures
        r == spec_normalize_target(topology@, launchers@, target, direction),
{
    let target = match target {
        DesktopTarget::Launcher(launcher_id) => concrete_navigation_target(topology, launchers, launcher_id, direction),
        _ => target,
    };
    topology.resolve_neighbor_focus_target(&target)
}

/// Plans a navigation step without mutating navigation state: the candidate target and the
/// column affinity the step would commit.
pub fn plan_navigation_candidate(
    hierarchy: &DesktopTopology,
    launchers: &IdMap<LaunchProfileId, LauncherState>,
    matrix_positions: &MatrixPositions,
    navigation_control: &NavigationControl,
    from: &DesktopTarget,
    direction: Direction,
) -> (r: Option<NavigationPlan>)
    requires
        hierarchy.wf(),
        launchers.wf(),
        matrix_positions.wf(),
        desktop_shape(hierarchy@),
    ensures
        navigation_plan_spec(
            hierarchy@,
            matrix_positions@,
            launchers@,
            navigation_control.affinity(),
            *from,
            direction,
            r,
        ),
{
    let origin = match resolve_navigation_origin(hierarchy, from) {
        Some(origin) => origin,
        None => return None,
    };
    let placement = navigation_origin_placement(matrix_positions, origin);
    let column_affinity = navigation_control.plan_column_affinity(direction, placement);
    let matrix_navigation = MatrixNavigation::new(hierarchy, matrix_positions);
    proof {
        if let NavigationOrigin::Child { launcher, index } = origin {
            let ids = instance_ids(spec_nested(hierarchy@, DesktopTarget::Launcher(launcher)));
            assert(ids.contains(ids[index as int]) ==> 0 <= ids.index_of(ids[index as int]) < ids.len());
        }
    }
    let t = navigate_from_origin(matrix_navigation, launchers, origin, direction, column_affinity);
    let ghost gt = t;
    match t {
        Some(target) => {
            let candidate = normalize_navigation_target(hierarchy, launchers, target, direction);
            let r = Some(NavigationPlan { candidate, column_affinity });
            assert(origin_navigation_spec(hierarchy@, matrix_positions@, launchers@, origin, direction, column_affinity, gt));
            r
        },
        None => None,
    }
}

/// `r` is where the focus goes when a focused launcher is removed: its neighbor to the right or
/// below, else its project's matrix.
pub open spec fn launcher_removal_target(
    m: HierarchyView<DesktopTarget>,
    positions: Map<LaunchProfileId, MatrixPlacement>,
    launcher: LaunchProfileId,
    r: DesktopTarget,
) -> bool {
    exists|right: Option<DesktopTarget>, down: Option<DesktopTarget>|
        #[trigger] launcher_navigation_spec(m, positions, launcher, Direction::Right, None, right)
            && #[trigger] launcher_navigation_spec(m, positions, launcher, Direction::Down, None, down)
            && r == match right {
            Some(t) => t,
            None => match down {
                Some(t) => t,
                None => DesktopTarget::ProjectMatrix(matrix_parent(m, launcher)->0),
            },
        }
}

/// Where the focus goes when a focused project is removed: the project after it on the desktop,
/// else the desktop.
pub open spec fn project_removal_target(m: HierarchyView<DesktopTarget>, project: ProjectId) -> DesktopTarget {
    let s = spec_nested(m, DesktopTarget::Desktop);
    let i = s.index_of(DesktopTarget::Project(project));
    if i + 1 < s.len() {
        s[i + 1]
    } else {
        DesktopTarget::Desktop
    }
}

/// Where the focus goes when a focused launcher is removed: its neighbor to the right or below,
/// else its project's matrix.
pub fn launcher_removal_focus(hierarchy: &DesktopTopology, matrix_positions: &MatrixPositions, launcher: LaunchProfileId) -> (r:
    DesktopTarget)
    requires
        hierarchy.wf(),
        matrix_positions.wf(),
        desktop_shape(hierarchy@),
        matrix_parent(hierarchy@, launcher) is Some,
    ensures
        launcher_removal_target(hierarchy@, matrix_positions@, launcher, r),
{
    let matrix_navigation = MatrixNavigation::new(hierarchy, matrix_positions);
    let right = matrix_navigation.navigate_from_launcher(launcher, Direction::Right, None);
    let down = matrix_navigation.navigate_from_launcher(launcher, Direction::Down, None);
    match right {
        Some(t) => t,
        None => match down {
            Some(t) => t,
            None => DesktopTarget::ProjectMatrix(hierarchy.project_of_launcher(launcher)),
        },
    }
}

/// A horizontal navigation step never keeps a column affinity, and a vertical step that starts
/// without one latches the column of the launcher it starts from.
pub proof fn law_navigation_affinity(
    m: HierarchyView<DesktopTarget>,
    positions: Map<LaunchProfileId, MatrixPlacement>,
    states: Map<LaunchProfileId, LauncherState>,
    affinity: Option<u32>,
    from: DesktopTarget,
    direction: Direction,
    plan: NavigationPlan,
)
    requires
        navigation_plan_spec(m, positions, states, affinity, from, direction, Some(plan)),
    ensures
        (direction == Direction::Left || direction == Direction::Right) ==> plan.column_affinity is None,
        (direction == Direction::Up || direction == Direction::Down) && affinity is None ==> plan.column_affinity
            == match spec_navigation_origin(m, from) {
            Some(origin) => match origin_placement(positions, origin) {
                Some(p) => Some(p.column),
                None => None,
            },
            None => None,
        },
{
}

/// Where the focus goes when a focused project is removed: the next project, else the desktop.
pub fn project_removal_focus(hierarchy: &DesktopTopology, project: ProjectId) -> (r: DesktopTarget)
    requires
        hierarchy.wf(),
        spec_nested(hierarchy@, DesktopTarget::Desktop).contains(DesktopTarget::Project(project)),
    ensures
        r == project_removal_target(hierarchy@, project),
{
    let ghost m = hierarchy@;
    let projects = hierarchy.get_nested(&DesktopTarget::Desktop);
    let project_target = DesktopTarget::Project(project);
    proof {
        hierarchy.lemma_links();
        assert(m.contains_key(DesktopTarget::Desktop));
        assert(projects@.no_duplicates());
    }
    let mut i: usize = 0;
    while i < projects.len()
        invariant
            i <= projects@.len(),
            m == hierarchy@,
            project_target == DesktopTarget::Project(project),
            projects@ == spec_nested(m, DesktopTarget::Desktop),
            projects@.no_duplicates(),
            projects@.contains(project_target),
            forall|j: int| 0 <= j < i ==> projects@[j] != project_target,
        decreases projects@.len() - i,
    {
        if projects[i] == project_target {
            proof {
                crate::id_map::lemma_index_of_unique(projects@, i as int);
            }
            if i + 1 < projects.len() {
                return projects[i + 1];
            }
            return DesktopTarget::Desktop;
        }
        i += 1;
    }
    proof {
        let k = choose|k: int| 0 <= k < projects@.len() && projects@[k] == project_target;
        assert(projects@[k] != project_target);
    }
    DesktopTarget::Desktop
}

/// Stepping onto a launcher that is not in visor mode enters its edge instance on the side the
/// step comes from (the last one when moving left, the first one otherwise), whatever instance
/// last had the focus in it.
pub proof fn law_non_visor_entry_ignores_anchor(
    m: HierarchyView<DesktopTarget>,
    states: Map<LaunchProfileId, LauncherState>,
    launcher: LaunchProfileId,
    direction: Direction,
)
    requires
        states.contains_key(launcher),
        states[launcher].mode != LauncherMode::Visor,
        0 < instance_ids(spec_nested(m, DesktopTarget::Launcher(launcher))).len() <= usize::MAX,
    ensures
        ({
            let ids = instance_ids(spec_nested(m, DesktopTarget::Launcher(launcher)));
            spec_concrete_target(m, states, launcher, direction) == DesktopTarget::Instance(
                if direction == Direction::Left {
                    ids[ids.len() - 1]
                } else {
                    ids[0]
                },
            )
        }),
{
}

/// Stepping onto a visor launcher enters the instance that last had the focus in it, when that is
/// still one of its instances, from whatever side the step comes.
pub proof fn law_visor_entry_uses_anchor(
    m: HierarchyView<DesktopTarget>,
    states: Map<LaunchProfileId, LauncherState>,
    launcher: LaunchProfileId,
    direction: Direction,
    anchor: InstanceId,
)
    requires
        states.contains_key(launcher),
        states[launcher].mode == LauncherMode::Visor,
        states[launcher].focus_anchor_instance == Some(anchor),
        instance_ids(spec_nested(m, DesktopTarget::Launcher(launcher))).contains(anchor),
        instance_ids(spec_nested(m, DesktopTarget::Launcher(launcher))).len() <= usize::MAX,
    ensures
        spec_concrete_target(m, states, launcher, direction) == DesktopTarget::Instance(anchor),
{
    let ids = instance_ids(spec_nested(m, DesktopTarget::Launcher(launcher)));
    let k = ids.index_of(anchor);
    assert(0 <= k < ids.len() && ids[k] == anchor);
}

/// When a focused project that is not the last one is removed, the focus goes to its right-hand
/// neighbor: the project next in the desktop's order. When it is the last one, the focus goes to
/// the desktop.
pub proof fn law_removed_project_passes_focus_to_next(m: HierarchyView<DesktopTarget>, project: ProjectId, i: int)
    requires
        spec_nested(m, DesktopTarget::Desktop).no_duplicates(),
        0 <= i < spec_nested(m, DesktopTarget::Desktop).len(),
        spec_nested(m, DesktopTarget::Desktop)[i] == DesktopTarget::Project(project),
    ensures
        i + 1 < spec_nested(m, DesktopTarget::Desktop).len() ==> project_removal_target(m, project) == spec_nested(
            m,
            DesktopTarget::Desktop,
        )[i + 1],
        i + 1 == spec_nested(m, DesktopTarget::Desktop).len() ==> project_removal_target(m, project)
            == DesktopTarget::Desktop,
{
    let s = spec_nested(m, DesktopTarget::Desktop);
    crate::id_map::lemma_index_of_unique(s, i);
}

} // verus!
