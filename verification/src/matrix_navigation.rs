//! Choosing the neighbor of a matrix slot in a navigation direction.
use vstd::prelude::*;

use crate::focus_path::parent_of;
use crate::id_map::IdMap;
use crate::ids::{DesktopTarget, InstanceId, LaunchProfileId, ProjectId};
use crate::matrix_positions::{MatrixPlacement, MatrixPositions};
use crate::navigation::{Direction, HorizontalDirection, VerticalDirection};
use crate::ordered_hierarchy::{spec_nested, HierarchyView};
use crate::topology::{desktop_shape, instance_ids, launcher_ids, DesktopTopology};

verus! {

/// A key together with the matrix slot it occupies.
#[derive(Debug, Clone, Copy, PartialEq, Eq)]
pub struct MatrixEntry<K> {
    pub key: K,
    pub placement: MatrixPlacement,
}

/// `entries[i]` satisfies `f` and has the greatest `v` among those that do; no later one that
/// satisfies `f` has that value (the last maximum).
pub open spec fn is_last_max<K>(entries: Seq<MatrixEntry<K>>, i: int, f: spec_fn(MatrixEntry<K>) -> bool, v: spec_fn(MatrixEntry<K>) -> int) -> bool {
    &&& 0 <= i < entries.len()
    &&& f(entries[i])
    &&& forall|j: int| 0 <= j < entries.len() && #[trigger] f(entries[j]) ==> v(entries[j]) <= v(entries[i])
    &&& forall|j: int| i < j < entries.len() && #[trigger] f(entries[j]) ==> v(entries[j]) < v(entries[i])
}

/// `entries[i]` satisfies `f` and has the least `v` among those that do; no earlier one that
/// satisfies `f` has that value (the first minimum).
pub open spec fn is_first_min<K>(entries: Seq<MatrixEntry<K>>, i: int, f: spec_fn(MatrixEntry<K>) -> bool, v: spec_fn(MatrixEntry<K>) -> int) -> bool {
    &&& 0 <= i < entries.len()
    &&& f(entries[i])
    &&& forall|j: int| 0 <= j < entries.len() && #[trigger] f(entries[j]) ==> v(entries[j]) >= v(entries[i])
    &&& forall|j: int| 0 <= j < i && #[trigger] f(entries[j]) ==> v(entries[j]) > v(entries[i])
}

/// `r` is the key that `max_by_key` (`last == true`) or `min_by_key` (`last == false`) picks
/// among the entries that satisfy `f`, ordered by `v`.
pub open spec fn picks<K>(entries: Seq<MatrixEntry<K>>, r: Option<K>, f: spec_fn(MatrixEntry<K>) -> bool, v: spec_fn(MatrixEntry<K>) -> int, last: bool) -> bool {
    match r {
        None => forall|j: int| 0 <= j < entries.len() ==> !#[trigger] f(entries[j]),
        Some(k) => exists|i: int|
            (if last { is_last_max(entries, i, f, v) } else { is_first_min(entries, i, f, v) })
                && #[trigger] entries[i].key == k,
    }
}

pub open spec fn column_of<K>() -> spec_fn(MatrixEntry<K>) -> int {
    |e: MatrixEntry<K>| e.placement.column as int
}

pub open spec fn row_of<K>() -> spec_fn(MatrixEntry<K>) -> int {
    |e: MatrixEntry<K>| e.placement.row as int
}

pub open spec fn distance(a: u32, b: u32) -> int {
    if a > b {
        a - b
    } else {
        b - a
    }
}

/// Orders entries by their distance to `column`, then by their column.
pub open spec fn nearness_to<K>(column: u32) -> spec_fn(MatrixEntry<K>) -> int {
    |e: MatrixEntry<K>| distance(e.placement.column, column) * 0x1_0000_0000 + e.placement.column
}

pub open spec fn in_row_left_of<K>(origin: MatrixPlacement) -> spec_fn(MatrixEntry<K>) -> bool {
    |e: MatrixEntry<K>| e.placement.row == origin.row && e.placement.column < origin.column
}

pub open spec fn in_row_right_of<K>(origin: MatrixPlacement) -> spec_fn(MatrixEntry<K>) -> bool {
    |e: MatrixEntry<K>| e.placement.row == origin.row && e.placement.column > origin.column
}

pub open spec fn in_row<K>(row: u32) -> spec_fn(MatrixEntry<K>) -> bool {
    |e: MatrixEntry<K>| e.placement.row == row
}

pub open spec fn in_column<K>(column: u32) -> spec_fn(MatrixEntry<K>) -> bool {
    |e: MatrixEntry<K>| e.placement.column == column
}

pub open spec fn above<K>(row: u32) -> spec_fn(MatrixEntry<K>) -> bool {
    |e: MatrixEntry<K>| e.placement.row < row
}

pub open spec fn below<K>(row: u32) -> spec_fn(MatrixEntry<K>) -> bool {
    |e: MatrixEntry<K>| e.placement.row > row
}

pub open spec fn any_entry<K>() -> spec_fn(MatrixEntry<K>) -> bool {
    |e: MatrixEntry<K>| true
}

/// The row `select_column_neighbor` moves to: the nearest row above (`Up`) or below (`Down`)
/// `origin_row` that holds an entry.
pub open spec fn is_target_row<K>(entries: Seq<MatrixEntry<K>>, origin_row: u32, direction: VerticalDirection, row: u32) -> bool {
    match direction {
        VerticalDirection::Up => exists|i: int| #[trigger] is_last_max(entries, i, above(origin_row), row_of()) && entries[i].placement.row == row,
        VerticalDirection::Down => exists|i: int| #[trigger] is_first_min(entries, i, below(origin_row), row_of()) && entries[i].placement.row == row,
    }
}

/// The outermost row of the entries: the last row when coming from below (`Up`), the first row
/// when coming from above (`Down`).
pub open spec fn is_boundary_row<K>(entries: Seq<MatrixEntry<K>>, direction: VerticalDirection, row: u32) -> bool {
    match direction {
        VerticalDirection::Up => exists|i: int| #[trigger] is_last_max(entries, i, any_entry(), row_of()) && entries[i].placement.row == row,
        VerticalDirection::Down => exists|i: int| #[trigger] is_first_min(entries, i, any_entry(), row_of()) && entries[i].placement.row == row,
    }
}

fn abs_diff(a: u32, b: u32) -> (r: u32)
    ensures
        r == distance(a, b),
{
    if a > b {
        a - b
    } else {
        b - a
    }
}

/// The neighbor of the instance at `index` among a launcher's instances.
pub fn horizontal_child_neighbor(instances: &[InstanceId], index: usize, direction: HorizontalDirection) -> (r: Option<InstanceId>)
    requires
        direction == HorizontalDirection::Left ==> index <= instances@.len(),
    ensures
        r == match direction {
            HorizontalDirection::Left => if index > 0 { Some(instances@[index - 1]) } else { None },
            HorizontalDirection::Right => if index + 1 < instances@.len() { Some(instances@[index + 1]) } else { None },
        },
{
    match direction {
        HorizontalDirection::Left => {
            if index > 0 {
                Some(instances[index - 1])
            } else {
                None
            }
        },
        HorizontalDirection::Right => {
            if index < instances.len() && instances.len() - index > 1 {
                Some(instances[index + 1])
            } else {
                None
            }
        },
    }
}

/// `r` is the matrix neighbor of `origin` in `direction` among `entries`.
pub open spec fn matrix_neighbor_spec<K>(
    entries: Seq<MatrixEntry<K>>,
    origin: MatrixPlacement,
    direction: Direction,
    preferred_column: Option<u32>,
    r: Option<K>,
) -> bool {
    match direction {
        Direction::Left => picks(entries, r, in_row_left_of(origin), column_of(), true),
        Direction::Right => picks(entries, r, in_row_right_of(origin), column_of(), false),
        Direction::Up => column_neighbor_spec(entries, origin.row, preferred_column.unwrap_or(origin.column), VerticalDirection::Up, r),
        Direction::Down => column_neighbor_spec(entries, origin.row, preferred_column.unwrap_or(origin.column), VerticalDirection::Down, r),
    }
}

/// `r` is the entry a vertical step lands on when it crosses into a project with `entries`:
/// none for an empty matrix; else the outermost entry of the same column if there is one, else
/// the entry nearest to the column in the outermost row.
pub open spec fn cross_entry_spec<K>(entries: Seq<MatrixEntry<K>>, origin_column: u32, direction: VerticalDirection, r: Option<K>) -> bool {
    &&& entries.len() == 0 ==> r is None
    &&& entries.len() > 0 ==> match direction {
        VerticalDirection::Up => if picks(entries, None::<K>, in_column(origin_column), row_of(), true) {
            exists|row: u32| #[trigger] is_boundary_row(entries, direction, row) && r is Some
                && picks(entries, r, in_row(row), nearness_to(origin_column), false)
        } else {
            picks(entries, r, in_column(origin_column), row_of(), true) && r is Some
        },
        VerticalDirection::Down => if picks(entries, None::<K>, in_column(origin_column), row_of(), false) {
            exists|row: u32| #[trigger] is_boundary_row(entries, direction, row) && r is Some
                && picks(entries, r, in_row(row), nearness_to(origin_column), false)
        } else {
            picks(entries, r, in_column(origin_column), row_of(), false) && r is Some
        },
    }
}

/// The matrix neighbor of `origin` in `direction`.
///
/// Horizontally, the nearest entry of the same row on that side; vertically, the entry nearest
/// to `preferred_column` (or the origin's column) in the nearest row on that side that holds one.
pub fn select_matrix_neighbor<K: Copy>(entries: &[MatrixEntry<K>], origin: MatrixPlacement, direction: Direction, preferred_column: Option<u32>) -> (r: Option<K>)
    ensures
        matrix_neighbor_spec(entries@, origin, direction, preferred_column, r),
{
    if let Some(horizontal) = direction.horizontal() {
        return select_row_neighbor(entries, origin, horizontal);
    }
    if let Some(vertical) = direction.vertical() {
        let column = match preferred_column {
            Some(c) => c,
            None => origin.column,
        };
        return select_column_neighbor(entries, origin.row, column, vertical);
    }
    None
}

/// The nearest entry of `origin`'s row on the given side.
pub fn select_row_neighbor<K: Copy>(entries: &[MatrixEntry<K>], origin: MatrixPlacement, direction: HorizontalDirection) -> (r: Option<K>)
    ensures
        match direction {
            HorizontalDirection::Left => picks(entries@, r, in_row_left_of(origin), column_of(), true),
            HorizontalDirection::Right => picks(entries@, r, in_row_right_of(origin), column_of(), false),
        },
{
    match direction {
        HorizontalDirection::Left => {
            let ghost f = in_row_left_of::<K>(origin);
            let ghost v = column_of::<K>();
            let mut best: Option<usize> = None;
            let mut i: usize = 0;
            while i < entries.len()
                invariant
                    i <= entries@.len(),
                    f == in_row_left_of::<K>(origin),
                    v == column_of::<K>(),
                    match best {
                        None => forall|j: int| 0 <= j < i ==> !#[trigger] f(entries@[j]),
                        Some(b) => is_last_max(entries@.take(i as int), b as int, f, v),
                    },
                decreases entries@.len() - i,
            {
                let e = entries[i];
                if e.placement.row == origin.row && e.placement.column < origin.column {
                    match best {
                        None => {
                            best = Some(i);
                        },
                        Some(b) => {
                            if e.placement.column >= entries[b].placement.column {
                                best = Some(i);
                            }
                        },
                    }
                }
                proof {
                    assert(entries@.take(i + 1).take(i as int) =~= entries@.take(i as int));
                    assert forall|j: int| 0 <= j < i implies entries@.take(i + 1)[j] == entries@.take(i as int)[j] by {}
                }
                i += 1;
            }
            proof {
                assert(entries@.take(i as int) =~= entries@);
            }
            match best {
                Some(b) => Some(entries[b].key),
                None => None,
            }
        },
        HorizontalDirection::Right => {
            let ghost f = in_row_right_of::<K>(origin);
            let ghost v = column_of::<K>();
            let mut best: Option<usize> = None;
            let mut i: usize = 0;
            while i < entries.len()
                invariant
                    i <= entries@.len(),
                    f == in_row_right_of::<K>(origin),
                    v == column_of::<K>(),
                    match best {
                        None => forall|j: int| 0 <= j < i ==> !#[trigger] f(entries@[j]),
                        Some(b) => is_first_min(entries@.take(i as int), b as int, f, v),
                    },
                decreases entries@.len() - i,
            {
                let e = entries[i];
                if e.placement.row == origin.row && e.placement.column > origin.column {
                    match best {
                        None => {
                            best = Some(i);
                        },
                        Some(b) => {
                            if e.placement.column < entries[b].placement.column {
                                best = Some(i);
                            }
                        },
                    }
                }
                proof {
                    assert forall|j: int| 0 <= j < i implies entries@.take(i + 1)[j] == entries@.take(i as int)[j] by {}
                }
                i += 1;
            }
            proof {
                assert(entries@.take(i as int) =~= entries@);
            }
            match best {
                Some(b) => Some(entries[b].key),
                None => None,
            }
        },
    }
}

/// What `select_column_neighbor` returns: nothing when no row on that side holds an entry, else
/// the entry of the nearest such row that is nearest to `column` (the left one on a tie).
pub open spec fn column_neighbor_spec<K>(entries: Seq<MatrixEntry<K>>, origin_row: u32, column: u32, direction: VerticalDirection, r: Option<K>) -> bool {
    match direction {
        VerticalDirection::Up => if picks(entries, None::<K>, above(origin_row), row_of(), true) {
            r is None
        } else {
            exists|row: u32| #[trigger] is_target_row(entries, origin_row, direction, row) && r is Some
                && picks(entries, r, in_row(row), nearness_to(column), false)
        },
        VerticalDirection::Down => if picks(entries, None::<K>, below(origin_row), row_of(), false) {
            r is None
        } else {
            exists|row: u32| #[trigger] is_target_row(entries, origin_row, direction, row) && r is Some
                && picks(entries, r, in_row(row), nearness_to(column), false)
        },
    }
}

/// The entry in `row` nearest to `column`, the left one on a tie.
fn nearest_in_row<K: Copy>(entries: &[MatrixEntry<K>], row: u32, column: u32) -> (r: Option<K>)
    ensures
        picks(entries@, r, in_row(row), nearness_to(column), false),
{
    let ghost f = in_row::<K>(row);
    let ghost v = nearness_to::<K>(column);
    let mut best: Option<usize> = None;
    let mut i: usize = 0;
    while i < entries.len()
        invariant
            i <= entries@.len(),
            f == in_row::<K>(row),
            v == nearness_to::<K>(column),
            match best {
                None => forall|j: int| 0 <= j < i ==> !#[trigger] f(entries@[j]),
                Some(b) => is_first_min(entries@.take(i as int), b as int, f, v),
            },
        decreases entries@.len() - i,
    {
        let e = entries[i];
        if e.placement.row == row {
            match best {
                None => {
                    best = Some(i);
                },
                Some(b) => {
                    let d = abs_diff(e.placement.column, column);
                    let bd = abs_diff(entries[b].placement.column, column);
                    if d < bd || (d == bd && e.placement.column < entries[b].placement.column) {
                        best = Some(i);
                    }
                },
            }
        }
        proof {
            assert forall|j: int| 0 <= j < i implies entries@.take(i + 1)[j] == entries@.take(i as int)[j] by {}
        }
        i += 1;
    }
    proof {
        assert(entries@.take(i as int) =~= entries@);
    }
    match best {
        Some(b) => Some(entries[b].key),
        None => None,
    }
}

/// The entry nearest to `column` in the nearest row above (`Up`) or below (`Down`) `origin_row`
/// that holds an entry.
pub fn select_column_neighbor<K: Copy>(entries: &[MatrixEntry<K>], origin_row: u32, column: u32, direction: VerticalDirection) -> (r: Option<K>)
    ensures
        column_neighbor_spec(entries@, origin_row, column, direction, r),
{
    let ghost f = match direction {
        VerticalDirection::Up => above::<K>(origin_row),
        VerticalDirection::Down => below::<K>(origin_row),
    };
    let ghost v = row_of::<K>();
    let mut best: Option<usize> = None;
    let mut i: usize = 0;
    while i < entries.len()
        invariant
            i <= entries@.len(),
            f == match direction {
                VerticalDirection::Up => above::<K>(origin_row),
                VerticalDirection::Down => below::<K>(origin_row),
            },
            v == row_of::<K>(),
            match best {
                None => forall|j: int| 0 <= j < i ==> !#[trigger] f(entries@[j]),
                Some(b) => match direction {
                    VerticalDirection::Up => is_last_max(entries@.take(i as int), b as int, f, v),
                    VerticalDirection::Down => is_first_min(entries@.take(i as int), b as int, f, v),
                },
            },
        decreases entries@.len() - i,
    {
        let e = entries[i];
        match direction {
            VerticalDirection::Up => {
                if e.placement.row < origin_row {
                    match best {
                        None => {
                            best = Some(i);
                        },
                        Some(b) => {
                            if e.placement.row >= entries[b].placement.row {
                                best = Some(i);
                            }
                        },
                    }
                }
            },
            VerticalDirection::Down => {
                if e.placement.row > origin_row {
                    match best {
                        None => {
                            best = Some(i);
                        },
                        Some(b) => {
                            if e.placement.row < entries[b].placement.row {
                                best = Some(i);
                            }
                        },
                    }
                }
            },
        }
        proof {
            assert forall|j: int| 0 <= j < i implies entries@.take(i + 1)[j] == entries@.take(i as int)[j] by {}
        }
        i += 1;
    }
    proof {
        assert(entries@.take(i as int) =~= entries@);
    }
    let target = match best {
        Some(b) => entries[b].placement.row,
        None => {
            return None;
        },
    };
    let r = nearest_in_row(entries, target, column);
    proof {
        let b = best->0 as int;
        assert(is_target_row(entries@, origin_row, direction, target));
        assert(f(entries@[b]));
        assert(in_row::<K>(target)(entries@[b]));
    }
    r
}

/// The entry of `column` outermost in `direction`: the last row when moving up, the first row
/// when moving down.
pub fn select_column_boundary<K: Copy>(entries: &[MatrixEntry<K>], column: u32, direction: VerticalDirection) -> (r: Option<K>)
    ensures
        match direction {
            VerticalDirection::Up => picks(entries@, r, in_column(column), row_of(), true),
            VerticalDirection::Down => picks(entries@, r, in_column(column), row_of(), false),
        },
{
    let ghost f = in_column::<K>(column);
    let ghost v = row_of::<K>();
    let mut best: Option<usize> = None;
    let mut i: usize = 0;
    while i < entries.len()
        invariant
            i <= entries@.len(),
            f == in_column::<K>(column),
            v == row_of::<K>(),
            match best {
                None => forall|j: int| 0 <= j < i ==> !#[trigger] f(entries@[j]),
                Some(b) => match direction {
                    VerticalDirection::Up => is_last_max(entries@.take(i as int), b as int, f, v),
                    VerticalDirection::Down => is_first_min(entries@.take(i as int), b as int, f, v),
                },
            },
        decreases entries@.len() - i,
    {
        let e = entries[i];
        if e.placement.column == column {
            match best {
                None => {
                    best = Some(i);
                },
                Some(b) => {
                    let better = match direction {
                        VerticalDirection::Up => e.placement.row >= entries[b].placement.row,
                        VerticalDirection::Down => e.placement.row < entries[b].placement.row,
                    };
                    if better {
                        best = Some(i);
                    }
                },
            }
        }
        proof {
            assert forall|j: int| 0 <= j < i implies entries@.take(i + 1)[j] == entries@.take(i as int)[j] by {}
        }
        i += 1;
    }
    proof {
        assert(entries@.take(i as int) =~= entries@);
    }
    match best {
        Some(b) => Some(entries[b].key),
        None => None,
    }
}

/// The entry nearest to `origin_column` in the outermost row in `direction`.
pub fn select_row_boundary_nearest_column<K: Copy>(entries: &[MatrixEntry<K>], origin_column: u32, direction: VerticalDirection) -> (r: Option<K>)
    ensures
        entries@.len() == 0 ==> r is None,
        entries@.len() > 0 ==> exists|row: u32| #[trigger] is_boundary_row(entries@, direction, row) && r is Some
            && picks(entries@, r, in_row(row), nearness_to(origin_column), false),
{
    let ghost f = any_entry::<K>();
    let ghost v = row_of::<K>();
    let mut best: Option<usize> = None;
    let mut i: usize = 0;
    while i < entries.len()
        invariant
            i <= entries@.len(),
            f == any_entry::<K>(),
            v == row_of::<K>(),
            match best {
                None => i == 0,
                Some(b) => match direction {
                    VerticalDirection::Up => is_last_max(entries@.take(i as int), b as int, f, v),
                    VerticalDirection::Down => is_first_min(entries@.take(i as int), b as int, f, v),
                },
            },
        decreases entries@.len() - i,
    {
        let e = entries[i];
        match best {
            None => {
                best = Some(i);
            },
            Some(b) => {
                let better = match direction {
                    VerticalDirection::Up => e.placement.row >= entries[b].placement.row,
                    VerticalDirection::Down => e.placement.row < entries[b].placement.row,
                };
                if better {
                    best = Some(i);
                }
            },
        }
        proof {
            assert forall|j: int| 0 <= j < i implies entries@.take(i + 1)[j] == entries@.take(i as int)[j] by {}
        }
        i += 1;
    }
    proof {
        assert(entries@.take(i as int) =~= entries@);
    }
    let boundary = match best {
        Some(b) => entries[b].placement.row,
        None => return None,
    };
    let r = nearest_in_row(entries, boundary, origin_column);
    proof {
        let b = best->0 as int;
        assert(is_boundary_row(entries@, direction, boundary));
        assert(in_row::<K>(boundary)(entries@[b]));
    }
    r
}

/// The entry a vertical step lands on when it crosses into another project: the outermost entry
/// of the same column if there is one, else the entry nearest to the column in the outermost row.
pub fn select_cross_project_vertical_entry<K: Copy>(entries: &[MatrixEntry<K>], origin_column: u32, direction: VerticalDirection) -> (r: Option<K>)
    ensures
        cross_entry_spec(entries@, origin_column, direction, r),
{
    if entries.len() == 0 {
        return None;
    }
    if let Some(exact_column) = select_column_boundary(entries, origin_column, direction) {
        return Some(exact_column);
    }
    select_row_boundary_nearest_column(entries, origin_column, direction)
}

/// The project matrix a launcher sits in and its slot there, if both are known.
pub open spec fn launcher_position(
    m: HierarchyView<DesktopTarget>,
    positions: Map<LaunchProfileId, MatrixPlacement>,
    launcher: LaunchProfileId,
) -> Option<(ProjectId, MatrixPlacement)> {
    match parent_of(m, DesktopTarget::Launcher(launcher)) {
        Some(DesktopTarget::ProjectMatrix(p)) => if positions.contains_key(launcher) {
            Some((p, positions[launcher]))
        } else {
            None
        },
        _ => None,
    }
}

/// The entries of the launchers `ids` that have a slot, in their order.
pub open spec fn spec_matrix_entries(ids: Seq<LaunchProfileId>, positions: Map<LaunchProfileId, MatrixPlacement>) -> Seq<
    MatrixEntry<LaunchProfileId>,
>
    decreases ids.len(),
{
    if ids.len() == 0 {
        Seq::empty()
    } else {
        let prev = spec_matrix_entries(ids.drop_last(), positions);
        let l = ids.last();
        if positions.contains_key(l) {
            prev.push(MatrixEntry { key: l, placement: positions[l] })
        } else {
            prev
        }
    }
}

/// The matrix entries of a project.
pub open spec fn project_entries(
    m: HierarchyView<DesktopTarget>,
    positions: Map<LaunchProfileId, MatrixPlacement>,
    project: ProjectId,
) -> Seq<MatrixEntry<LaunchProfileId>> {
    spec_matrix_entries(launcher_ids(spec_nested(m, DesktopTarget::ProjectMatrix(project))), positions)
}

/// The ids of the projects among `s`, in their order.
pub open spec fn project_ids(s: Seq<DesktopTarget>) -> Seq<ProjectId>
    decreases s.len(),
{
    if s.len() == 0 {
        Seq::empty()
    } else {
        let prev = project_ids(s.drop_last());
        match s.last() {
            DesktopTarget::Project(p) => prev.push(p),
            _ => prev,
        }
    }
}

/// `i` is the first position of `x` in `s`.
pub open spec fn is_first_position<T>(s: Seq<T>, x: T, i: int) -> bool {
    &&& 0 <= i < s.len()
    &&& s[i] == x
    &&& forall|j: int| 0 <= j < i ==> s[j] != x
}

/// The projects a vertical step visits after leaving the project at `index` of `ids`: those
/// above it nearest first, or those below it in order.
pub open spec fn candidate_projects(ids: Seq<ProjectId>, index: int, direction: VerticalDirection) -> Seq<ProjectId> {
    match direction {
        VerticalDirection::Up => Seq::new(index as nat, |j: int| ids[index - 1 - j]),
        VerticalDirection::Down => ids.subrange(index + 1, ids.len() as int),
    }
}

/// `r` is the launcher reached in the first of `candidates` that has any matrix entry.
pub open spec fn first_candidate_hit(
    m: HierarchyView<DesktopTarget>,
    positions: Map<LaunchProfileId, MatrixPlacement>,
    candidates: Seq<ProjectId>,
    origin_column: u32,
    direction: VerticalDirection,
    r: Option<LaunchProfileId>,
) -> bool {
    match r {
        None => forall|j: int| 0 <= j < candidates.len() ==> #[trigger] project_entries(m, positions, candidates[j]).len() == 0,
        Some(_) => exists|j: int|
            0 <= j < candidates.len() && (forall|i: int| 0 <= i < j ==> #[trigger] project_entries(m, positions, candidates[i]).len() == 0)
                && cross_entry_spec(#[trigger] project_entries(m, positions, candidates[j]), origin_column, direction, r),
    }
}

/// `r` is the launcher a vertical step from `project` reaches in another project.
pub open spec fn cross_neighbor_spec(
    m: HierarchyView<DesktopTarget>,
    positions: Map<LaunchProfileId, MatrixPlacement>,
    project: ProjectId,
    origin_column: u32,
    direction: VerticalDirection,
    r: Option<LaunchProfileId>,
) -> bool {
    let ids = project_ids(spec_nested(m, DesktopTarget::Desktop));
    &&& !ids.contains(project) ==> r is None
    &&& forall|index: int|
        #[trigger] is_first_position(ids, project, index) ==> first_candidate_hit(
            m,
            positions,
            candidate_projects(ids, index, direction),
            origin_column,
            direction,
            r,
        )
}

/// `r` is where a navigation step from a launcher lands: the matrix neighbor in its project, or
/// for a vertical step without one, the launcher reached in another project.
pub open spec fn launcher_navigation_spec(
    m: HierarchyView<DesktopTarget>,
    positions: Map<LaunchProfileId, MatrixPlacement>,
    launcher: LaunchProfileId,
    direction: Direction,
    preferred_column: Option<u32>,
    r: Option<DesktopTarget>,
) -> bool {
    match launcher_position(m, positions, launcher) {
        None => r is None,
        Some((project, origin)) => exists|k: Option<LaunchProfileId>|
            #[trigger] matrix_neighbor_spec(project_entries(m, positions, project), origin, direction, preferred_column, k)
                && match k {
                Some(t) => r == Some(DesktopTarget::Launcher(t)),
                None => match direction {
                    Direction::Up => exists|c: Option<LaunchProfileId>|
                        #[trigger] cross_neighbor_spec(m, positions, project, column_or(preferred_column, origin.column), VerticalDirection::Up, c)
                            && r == launcher_target(c),
                    Direction::Down => exists|c: Option<LaunchProfileId>|
                        #[trigger] cross_neighbor_spec(m, positions, project, column_or(preferred_column, origin.column), VerticalDirection::Down, c)
                            && r == launcher_target(c),
                    _ => r is None,
                },
            },
    }
}

/// The preferred column, else `column`.
pub open spec fn column_or(preferred: Option<u32>, column: u32) -> u32 {
    match preferred {
        Some(c) => c,
        None => column,
    }
}

/// The target of an optional launcher.
pub open spec fn launcher_target(l: Option<LaunchProfileId>) -> Option<DesktopTarget> {
    match l {
        Some(x) => Some(DesktopTarget::Launcher(x)),
        None => None,
    }
}

/// `r` is where a navigation step from the instance at `index` of `launcher` lands: its
/// horizontal sibling, else wherever the step from the launcher lands.
pub open spec fn child_navigation_spec(
    m: HierarchyView<DesktopTarget>,
    positions: Map<LaunchProfileId, MatrixPlacement>,
    known_launcher: bool,
    launcher: LaunchProfileId,
    index: usize,
    direction: Direction,
    preferred_column: Option<u32>,
    r: Option<DesktopTarget>,
) -> bool {
    let instances = instance_ids(spec_nested(m, DesktopTarget::Launcher(launcher)));
    if !known_launcher {
        r is None
    } else {
        let sibling = match direction {
            Direction::Left => if index > 0 { Some(instances[index - 1]) } else { None },
            Direction::Right => if index + 1 < instances.len() { Some(instances[index + 1]) } else { None },
            _ => None,
        };
        match sibling {
            Some(i) => r == Some(DesktopTarget::Instance(i)),
            None => launcher_navigation_spec(m, positions, launcher, direction, preferred_column, r),
        }
    }
}

proof fn lemma_entries_prefix(ids: Seq<LaunchProfileId>, positions: Map<LaunchProfileId, MatrixPlacement>, i: int)
    requires
        0 <= i < ids.len(),
    ensures
        spec_matrix_entries(ids.take(i + 1), positions) == if positions.contains_key(ids[i]) {
            spec_matrix_entries(ids.take(i), positions).push(MatrixEntry { key: ids[i], placement: positions[ids[i]] })
        } else {
            spec_matrix_entries(ids.take(i), positions)
        },
{
    assert(ids.take(i + 1).drop_last() =~= ids.take(i));
}

proof fn lemma_project_ids_prefix(s: Seq<DesktopTarget>, i: int)
    requires
        0 <= i < s.len(),
    ensures
        project_ids(s.take(i + 1)) == match s[i] {
            DesktopTarget::Project(p) => project_ids(s.take(i)).push(p),
            _ => project_ids(s.take(i)),
        },
{
    assert(s.take(i + 1).drop_last() =~= s.take(i));
}

/// Navigation within and across the launcher matrices of the desktop.
#[derive(Clone, Copy)]
pub struct MatrixNavigation<'a> {
    hierarchy: &'a DesktopTopology,
    positions: &'a MatrixPositions,
}

impl<'a> MatrixNavigation<'a> {
    pub closed spec fn wf(&self) -> bool {
        &&& self.hierarchy.wf()
        &&& self.positions.wf()
        &&& desktop_shape(self.hierarchy@)
    }

    /// The topology navigated.
    pub closed spec fn topology(&self) -> HierarchyView<DesktopTarget> {
        self.hierarchy@
    }

    /// The launcher slots navigated.
    pub closed spec fn slots(&self) -> Map<LaunchProfileId, MatrixPlacement> {
        self.positions@
    }

    pub fn new(hierarchy: &'a DesktopTopology, positions: &'a MatrixPositions) -> (n: Self)
        requires
            hierarchy.wf(),
            positions.wf(),
            desktop_shape(hierarchy@),
        ensures
            n.wf(),
            n.topology() == hierarchy@,
            n.slots() == positions@,
    {
        MatrixNavigation { hierarchy, positions }
    }

    /// Where a navigation step from a launcher lands.
    pub fn navigate_from_launcher(self, launcher_id: LaunchProfileId, direction: Direction, preferred_column: Option<u32>) -> (r:
        Option<DesktopTarget>)
        requires
            self.wf(),
        ensures
            launcher_navigation_spec(self.topology(), self.slots(), launcher_id, direction, preferred_column, r),
    {
        let (project_id, origin_placement) = match self.launcher_matrix_position(launcher_id) {
            Some(x) => x,
            None => return None,
        };
        let entries = self.create_project_matrix_entries(project_id);
        let k = select_matrix_neighbor(entries.as_slice(), origin_placement, direction, preferred_column);
        let ghost m = self.topology();
        let ghost pos = self.slots();
        assert(matrix_neighbor_spec(project_entries(m, pos, project_id), origin_placement, direction, preferred_column, k));
        match k {
            Some(t) => Some(DesktopTarget::Launcher(t)),
            None => match direction.vertical() {
                Some(vertical) => {
                    let column = match preferred_column {
                        Some(c) => c,
                        None => origin_placement.column,
                    };
                    let c = self.cross_project_vertical_neighbor(project_id, column, vertical);
                    assert(cross_neighbor_spec(m, pos, project_id, column_or(preferred_column, origin_placement.column), vertical, c));
                    match c {
                        Some(l) => Some(DesktopTarget::Launcher(l)),
                        None => None,
                    }
                },
                None => None,
            },
        }
    }

    /// Where a navigation step from the instance at `index` of a launcher lands; nowhere when
    /// `launchers` does not know the launcher.
    pub fn navigate_from_child<V>(
        self,
        launchers: &IdMap<LaunchProfileId, V>,
        launcher_id: LaunchProfileId,
        index: usize,
        direction: Direction,
        preferred_column: Option<u32>,
    ) -> (r: Option<DesktopTarget>)
        requires
            self.wf(),
            launchers.wf(),
            direction == Direction::Left ==> index <= spec_nested(self.topology(), DesktopTarget::Launcher(launcher_id)).len(),
        ensures
            child_navigation_spec(
                self.topology(),
                self.slots(),
                launchers@.contains_key(launcher_id),
                launcher_id,
                index,
                direction,
                preferred_column,
                r,
            ),
    {
        if !launchers.contains_key(&launcher_id) {
            return None;
        }
        proof {
            assert(crate::topology::all_instances(spec_nested(self.topology(), DesktopTarget::Launcher(launcher_id))));
        }
        let instances = self.hierarchy.launcher_instances(launcher_id);
        if let Some(horizontal) = direction.horizontal() {
            return match horizontal_child_neighbor(instances.as_slice(), index, horizontal) {
                Some(i) => Some(DesktopTarget::Instance(i)),
                None => self.navigate_from_launcher(launcher_id, direction, preferred_column),
            };
        }
        self.navigate_from_launcher(launcher_id, direction, preferred_column)
    }

    fn launcher_matrix_position(self, launcher_id: LaunchProfileId) -> (r: Option<(ProjectId, MatrixPlacement)>)
        requires
            self.wf(),
        ensures
            r == launcher_position(self.topology(), self.slots(), launcher_id),
    {
        let project_id = match self.hierarchy.parent(&DesktopTarget::Launcher(launcher_id)) {
            Some(DesktopTarget::ProjectMatrix(project_id)) => *project_id,
            _ => return None,
        };
        match self.positions.get(&launcher_id) {
            Some(placement) => Some((project_id, *placement)),
            None => None,
        }
    }

    fn create_project_matrix_entries(self, project_id: ProjectId) -> (r: Vec<MatrixEntry<LaunchProfileId>>)
        requires
            self.wf(),
        ensures
            r@ == project_entries(self.topology(), self.slots(), project_id),
    {
        proof {
            assert(crate::topology::all_launchers(spec_nested(self.topology(), DesktopTarget::ProjectMatrix(project_id))));
        }
        let launchers = self.hierarchy.matrix_launchers(project_id);
        let ghost pos = self.slots();
        let mut entries: Vec<MatrixEntry<LaunchProfileId>> = Vec::new();
        let mut i: usize = 0;
        while i < launchers.len()
            invariant
                self.wf(),
                pos == self.slots(),
                i <= launchers@.len(),
                entries@ == spec_matrix_entries(launchers@.take(i as int), pos),
            decreases launchers@.len() - i,
        {
            let launcher_id = launchers[i];
            proof {
                lemma_entries_prefix(launchers@, pos, i as int);
            }
            match self.positions.get(&launcher_id) {
                Some(placement) => entries.push(MatrixEntry { key: launcher_id, placement: *placement }),
                None => {},
            }
            i += 1;
        }
        assert(launchers@.take(launchers@.len() as int) =~= launchers@);
        entries
    }

    fn cross_project_vertical_neighbor(self, project_id: ProjectId, origin_column: u32, direction: VerticalDirection) -> (r:
        Option<LaunchProfileId>)
        requires
            self.wf(),
        ensures
            cross_neighbor_spec(self.topology(), self.slots(), project_id, origin_column, direction, r),
    {
        let ghost m = self.topology();
        let ghost pos = self.slots();
        let targets = self.hierarchy.get_nested(&DesktopTarget::Desktop);
        let mut ids: Vec<ProjectId> = Vec::new();
        let mut k: usize = 0;
        while k < targets.len()
            invariant
                k <= targets@.len(),
                ids@ == project_ids(targets@.take(k as int)),
            decreases targets@.len() - k,
        {
            proof {
                lemma_project_ids_prefix(targets@, k as int);
            }
            if let DesktopTarget::Project(id) = targets[k] {
                ids.push(id);
            }
            k += 1;
        }
        assert(targets@.take(targets@.len() as int) =~= targets@);
        let ghost all = ids@;
        assert(all == project_ids(spec_nested(m, DesktopTarget::Desktop)));
        let mut index: usize = 0;
        while index < ids.len()
            invariant
                index <= ids@.len(),
                forall|j: int| 0 <= j < index ==> ids@[j] != project_id,
            ensures
                index <= ids@.len(),
                forall|j: int| 0 <= j < index ==> ids@[j] != project_id,
                index < ids@.len() ==> ids@[index as int] == project_id,
            decreases ids@.len() - index,
        {
            if ids[index].0 == project_id.0 {
                break;
            }
            index += 1;
        }
        if index == ids.len() {
            assert(!all.contains(project_id));
            return None;
        }
        assert(is_first_position(all, project_id, index as int));
        assert(all.contains(project_id));
        assert forall|x: int| #[trigger] is_first_position(all, project_id, x) implies x == index by {
            if x < index {
                assert(ids@[x] != project_id);
            } else if x > index {
                assert(all[index as int] == project_id);
            }
        }
        let ghost cands = candidate_projects(all, index as int, direction);
        match direction {
            VerticalDirection::Up => {
                let mut j: usize = index;
                while j > 0
                    invariant
                        j <= index < ids@.len(),
                        self.wf(),
                        m == self.topology(),
                        pos == self.slots(),
                        ids@ == all,
                        cands == candidate_projects(all, index as int, direction),
                        direction == VerticalDirection::Up,
                        all == project_ids(spec_nested(m, DesktopTarget::Desktop)),
                        all.contains(project_id),
                        forall|x: int| #[trigger] is_first_position(all, project_id, x) ==> x == index,
                        forall|i: int| 0 <= i < index - j ==> #[trigger] project_entries(m, pos, cands[i]).len() == 0,
                    decreases j,
                {
                    let candidate = ids[j - 1];
                    assert(cands[index - j] == candidate);
                    let entries = self.create_project_matrix_entries(candidate);
                    let found = select_cross_project_vertical_entry(entries.as_slice(), origin_column, direction);
                    if found.is_some() {
                        assert(first_candidate_hit(m, pos, cands, origin_column, direction, found)) by {
                            assert(cross_entry_spec(project_entries(m, pos, cands[index - j]), origin_column, direction, found));
                        }
                        return found;
                    }
                    j -= 1;
                }
                None
            },
            VerticalDirection::Down => {
                let mut j: usize = index + 1;
                while j < ids.len()
                    invariant
                        index < j <= ids@.len(),
                        self.wf(),
                        m == self.topology(),
                        pos == self.slots(),
                        ids@ == all,
                        cands == candidate_projects(all, index as int, direction),
                        direction == VerticalDirection::Down,
                        all == project_ids(spec_nested(m, DesktopTarget::Desktop)),
                        all.contains(project_id),
                        forall|x: int| #[trigger] is_first_position(all, project_id, x) ==> x == index,
                        forall|i: int| 0 <= i < j - index - 1 ==> #[trigger] project_entries(m, pos, cands[i]).len() == 0,
                    decreases ids@.len() - j,
                {
                    let candidate = ids[j];
                    assert(cands[j - index - 1] == candidate);
                    let entries = self.create_project_matrix_entries(candidate);
                    let found = select_cross_project_vertical_entry(entries.as_slice(), origin_column, direction);
                    if found.is_some() {
                        assert(first_candidate_hit(m, pos, cands, origin_column, direction, found)) by {
                            assert(cross_entry_spec(project_entries(m, pos, cands[j - index - 1]), origin_column, direction, found));
                        }
                        return found;
                    }
                    j += 1;
                }
                None
            },
        }
    }
}

/// A horizontal step from an instance that has no sibling on that side of its launcher leaves
/// the launcher: it lands exactly where the same step from the launcher itself lands.
pub proof fn law_edge_instance_steps_like_its_launcher(
    m: HierarchyView<DesktopTarget>,
    positions: Map<LaunchProfileId, MatrixPlacement>,
    launcher: LaunchProfileId,
    index: usize,
    direction: Direction,
    preferred_column: Option<u32>,
    r: Option<DesktopTarget>,
)
    requires
        index < instance_ids(spec_nested(m, DesktopTarget::Launcher(launcher))).len(),
        direction == Direction::Left ==> index == 0,
        direction == Direction::Right ==> index + 1 == instance_ids(spec_nested(m, DesktopTarget::Launcher(launcher))).len(),
    ensures
        child_navigation_spec(m, positions, true, launcher, index, direction, preferred_column, r)
            <==> launcher_navigation_spec(m, positions, launcher, direction, preferred_column, r),
{
}

} // verus!
