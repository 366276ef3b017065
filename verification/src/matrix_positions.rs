//! The positions of launchers in their project's matrix.
use vstd::prelude::*;

use crate::id_map::{IdMap, MapError};
use crate::ids::LaunchProfileId;

verus! {

/// A slot of a project's launcher matrix.
#[derive(Debug, Clone, Copy, PartialEq, Eq, Hash, Structural)]
pub struct MatrixPlacement {
    pub column: u32,
    pub row: u32,
}

impl From<(u32, u32)> for MatrixPlacement {
    /// A placement from `(column, row)`.
    fn from(value: (u32, u32)) -> (p: MatrixPlacement)
        ensures
            p == (MatrixPlacement { column: value.0, row: value.1 }),
    {
        MatrixPlacement { column: value.0, row: value.1 }
    }
}

impl vstd::std_specs::convert::FromSpecImpl<(u32, u32)> for MatrixPlacement {
    open spec fn obeys_from_spec() -> bool {
        true
    }

    open spec fn from_spec(v: (u32, u32)) -> MatrixPlacement {
        MatrixPlacement { column: v.0, row: v.1 }
    }
}

/// A direction in which a launcher is moved inside the matrix.
#[derive(Debug, Clone, Copy, PartialEq, Eq, Structural)]
pub enum MoveDirection {
    Left,
    Right,
    Up,
    Down,
}

/// How the slots right of a removed slot move.
#[derive(Debug, Clone, Copy, PartialEq, Eq, Structural)]
pub enum RemoveSlotShiftingPolicy {
    ShiftLeft,
}

/// Why a matrix operation was refused.
#[derive(Debug, Clone, Copy, PartialEq, Eq, Structural)]
pub enum MatrixError {
    /// Can't place a launcher in an occupied matrix slot.
    SlotOccupied { column: u32, row: u32 },
    /// Can't shift a launcher beyond the matrix boundary.
    Boundary,
    /// The position map refused the change.
    Positions(MapError),
}

/// The slot one step from `p` in `direction`, if it lies inside the matrix.
pub open spec fn spec_moved(p: MatrixPlacement, direction: MoveDirection) -> Option<MatrixPlacement> {
    match direction {
        MoveDirection::Left => if p.column > 0 {
            Some(MatrixPlacement { column: (p.column - 1) as u32, row: p.row })
        } else {
            None
        },
        MoveDirection::Right => if p.column < u32::MAX {
            Some(MatrixPlacement { column: (p.column + 1) as u32, row: p.row })
        } else {
            None
        },
        MoveDirection::Up => if p.row > 0 {
            Some(MatrixPlacement { column: p.column, row: (p.row - 1) as u32 })
        } else {
            None
        },
        MoveDirection::Down => if p.row < u32::MAX {
            Some(MatrixPlacement { column: p.column, row: (p.row + 1) as u32 })
        } else {
            None
        },
    }
}

/// How many steps lie between `p` and the matrix boundary in `direction`.
pub open spec fn steps_to_boundary(p: MatrixPlacement, direction: MoveDirection) -> nat {
    match direction {
        MoveDirection::Left => p.column as nat,
        MoveDirection::Right => (u32::MAX - p.column) as nat,
        MoveDirection::Up => p.row as nat,
        MoveDirection::Down => (u32::MAX - p.row) as nat,
    }
}

/// The first of `launchers` that sits at `p`.
pub open spec fn first_at(m: Map<LaunchProfileId, MatrixPlacement>, launchers: Seq<LaunchProfileId>, p: MatrixPlacement) -> Option<LaunchProfileId>
    decreases launchers.len(),
{
    if launchers.len() == 0 {
        None
    } else if m[launchers[0]] == p {
        Some(launchers[0])
    } else {
        first_at(m, launchers.drop_first(), p)
    }
}

/// The contiguous run of occupied slots that follows `start` in `direction`, each with its
/// launcher; `None` when the run reaches the matrix boundary.
pub open spec fn spec_run(
    m: Map<LaunchProfileId, MatrixPlacement>,
    launchers: Seq<LaunchProfileId>,
    start: MatrixPlacement,
    direction: MoveDirection,
) -> Option<Seq<(LaunchProfileId, MatrixPlacement)>>
    decreases steps_to_boundary(start, direction),
{
    match spec_moved(start, direction) {
        None => None,
        Some(next) => match first_at(m, launchers, next) {
            None => Some(Seq::empty()),
            Some(l) => match spec_run(m, launchers, next, direction) {
                None => None,
                Some(rest) => Some(seq![(l, next)] + rest),
            },
        },
    }
}

/// Each entry moved one step in `direction` (entries at the boundary stay).
pub open spec fn moved_entries(s: Seq<(LaunchProfileId, MatrixPlacement)>, direction: MoveDirection) -> Seq<(LaunchProfileId, MatrixPlacement)> {
    Seq::new(s.len(), |i: int| (s[i].0, spec_moved(s[i].1, direction).unwrap_or(s[i].1)))
}

/// The launchers that `shifted_launchers` moves, last first, each with its new slot; `None` when
/// the run would be pushed beyond the matrix boundary.
pub open spec fn spec_shifted(
    m: Map<LaunchProfileId, MatrixPlacement>,
    launchers: Seq<LaunchProfileId>,
    launcher: LaunchProfileId,
    direction: MoveDirection,
) -> Option<Seq<(LaunchProfileId, MatrixPlacement)>> {
    match spec_run(m, launchers, m[launcher], direction) {
        None => None,
        Some(rest) => Some(moved_entries((seq![(launcher, m[launcher])] + rest).reverse(), direction)),
    }
}

/// No launcher of `launchers` sits at `p`.
pub open spec fn spec_available(m: Map<LaunchProfileId, MatrixPlacement>, launchers: Seq<LaunchProfileId>, p: MatrixPlacement) -> bool {
    forall|i: int| 0 <= i < launchers.len() ==> !(m.contains_key(#[trigger] launchers[i]) && m[launchers[i]] == p)
}

/// The slot of one launcher after removing the slot `p` and shifting its row left.
pub open spec fn shifted_left(q: MatrixPlacement, p: MatrixPlacement) -> MatrixPlacement {
    if q.row == p.row && q.column > p.column {
        MatrixPlacement { column: (q.column - 1) as u32, row: q.row }
    } else {
        q
    }
}

/// The positions after `remove_slot`, applied to the launchers one after the other.
pub open spec fn spec_remove_slot(
    m: Map<LaunchProfileId, MatrixPlacement>,
    launchers: Seq<LaunchProfileId>,
    p: MatrixPlacement,
) -> Map<LaunchProfileId, MatrixPlacement>
    decreases launchers.len(),
{
    if launchers.len() == 0 {
        m
    } else {
        let before = spec_remove_slot(m, launchers.drop_last(), p);
        before.insert(launchers.last(), shifted_left(before[launchers.last()], p))
    }
}

/// The opposite direction.
pub open spec fn opposite(direction: MoveDirection) -> MoveDirection {
    match direction {
        MoveDirection::Left => MoveDirection::Right,
        MoveDirection::Right => MoveDirection::Left,
        MoveDirection::Up => MoveDirection::Down,
        MoveDirection::Down => MoveDirection::Up,
    }
}

/// A step back in the opposite direction returns to the slot a step started from.
pub proof fn law_move_back(p: MatrixPlacement, direction: MoveDirection)
    requires
        spec_moved(p, direction) is Some,
    ensures
        spec_moved(spec_moved(p, direction)->0, opposite(direction)) == Some(p),
{
}

/// Removing a slot with each launcher listed once moves exactly the listed launchers that sit
/// right of the slot in its row one column left; every other position stays.
pub proof fn law_remove_slot_shifts_row(
    m: Map<LaunchProfileId, MatrixPlacement>,
    launchers: Seq<LaunchProfileId>,
    p: MatrixPlacement,
)
    requires
        launchers.no_duplicates(),
        forall|i: int| 0 <= i < launchers.len() ==> m.contains_key(#[trigger] launchers[i]),
    ensures
        spec_remove_slot(m, launchers, p).dom() == m.dom(),
        forall|l: LaunchProfileId| #[trigger] launchers.contains(l) ==> spec_remove_slot(m, launchers, p)[l] == shifted_left(m[l], p),
        forall|l: LaunchProfileId| m.contains_key(l) && !launchers.contains(l) ==> #[trigger] spec_remove_slot(m, launchers, p)[l] == m[l],
    decreases launchers.len(),
{
    if launchers.len() > 0 {
        let init = launchers.drop_last();
        assert(init.no_duplicates());
        law_remove_slot_shifts_row(m, init, p);
        let last = launchers.last();
        assert(!init.contains(last)) by {
            if init.contains(last) {
                let j = choose|j: int| 0 <= j < init.len() && init[j] == last;
                assert(launchers[j] == launchers[launchers.len() - 1]);
            }
        }
        assert forall|l: LaunchProfileId| #[trigger] launchers.contains(l) && l != last implies init.contains(l) by {
            let j = choose|j: int| 0 <= j < launchers.len() && launchers[j] == l;
            assert(j != launchers.len() - 1);
            assert(init[j] == l);
        }
        assert forall|l: LaunchProfileId| init.contains(l) implies launchers.contains(l) by {
            let j = choose|j: int| 0 <= j < init.len() && init[j] == l;
            assert(launchers[j] == l);
        }
        assert(launchers[launchers.len() - 1] == last);
        assert(spec_remove_slot(m, launchers, p).dom() =~= m.dom());
    }
}

#[derive(Debug)]
pub struct MatrixPositions {
    positions: IdMap<LaunchProfileId, MatrixPlacement>,
}

impl View for MatrixPositions {
    type V = Map<LaunchProfileId, MatrixPlacement>;

    closed spec fn view(&self) -> Map<LaunchProfileId, MatrixPlacement> {
        self.positions@
    }
}

impl MatrixPositions {
    pub closed spec fn wf(&self) -> bool {
        self.positions.wf()
    }

    /// No positions.
    pub fn new() -> (r: Self)
        ensures
            r.wf(),
            r@ == Map::<LaunchProfileId, MatrixPlacement>::empty(),
    {
        MatrixPositions { positions: IdMap::new() }
    }

    /// Whether none of `launchers` occupies `placement`.
    pub fn is_available(&self, launchers: &[LaunchProfileId], placement: MatrixPlacement) -> (r: bool)
        requires
            self.wf(),
        ensures
            r == spec_available(self@, launchers@, placement),
    {
        let mut i: usize = 0;
        while i < launchers.len()
            invariant
                self.wf(),
                i <= launchers@.len(),
                forall|j: int| 0 <= j < i ==> !(self@.contains_key(#[trigger] launchers@[j]) && self@[launchers@[j]] == placement),
            decreases launchers@.len() - i,
        {
            match self.positions.get(&launchers[i]) {
                Some(p) => {
                    if *p == placement {
                        return false;
                    }
                },
                None => {},
            }
            i += 1;
        }
        true
    }

    /// Place `launcher` at `placement`, unless one of `launchers` occupies it.
    ///
    /// When `launcher` has a position already, the new one is stored and the change reported as
    /// refused.
    pub fn place(&mut self, launchers: &[LaunchProfileId], launcher: LaunchProfileId, placement: MatrixPlacement) -> (r: Result<(), MatrixError>)
        requires
            old(self).wf(),
        ensures
            final(self).wf(),
            !spec_available(old(self)@, launchers@, placement) ==> r == Err::<(), MatrixError>(
                MatrixError::SlotOccupied { column: placement.column, row: placement.row },
            ) && final(self)@ == old(self)@,
            spec_available(old(self)@, launchers@, placement) ==> final(self)@ == old(self)@.insert(launcher, placement)
                && (r is Ok <==> !old(self)@.contains_key(launcher))
                && (r is Err ==> r == Err::<(), MatrixError>(MatrixError::Positions(MapError::KeyExists))),
    {
        if !self.is_available(launchers, placement) {
            return Err(MatrixError::SlotOccupied { column: placement.column, row: placement.row });
        }
        match self.positions.insert(launcher, placement) {
            Ok(()) => Ok(()),
            Err(e) => Err(MatrixError::Positions(e)),
        }
    }

    /// The slot one step from `placement` in `direction`, if it lies inside the matrix.
    pub fn moved_placement(placement: MatrixPlacement, direction: MoveDirection) -> (r: Option<MatrixPlacement>)
        ensures
            r == spec_moved(placement, direction),
    {
        match direction {
            MoveDirection::Left => match placement.column.checked_sub(1) {
                Some(column) => Some(MatrixPlacement { column, row: placement.row }),
                None => None,
            },
            MoveDirection::Right => match placement.column.checked_add(1) {
                Some(column) => Some(MatrixPlacement { column, row: placement.row }),
                None => None,
            },
            MoveDirection::Up => match placement.row.checked_sub(1) {
                Some(row) => Some(MatrixPlacement { column: placement.column, row }),
                None => None,
            },
            MoveDirection::Down => match placement.row.checked_add(1) {
                Some(row) => Some(MatrixPlacement { column: placement.column, row }),
                None => None,
            },
        }
    }

    fn find_at(&self, launchers: &[LaunchProfileId], placement: MatrixPlacement) -> (r: Option<LaunchProfileId>)
        requires
            self.wf(),
            forall|i: int| 0 <= i < launchers@.len() ==> self@.contains_key(#[trigger] launchers@[i]),
        ensures
            r == first_at(self@, launchers@, placement),
    {
        proof {
            assert(launchers@.skip(0) =~= launchers@);
        }
        let mut i: usize = 0;
        while i < launchers.len()
            invariant
                self.wf(),
                i <= launchers@.len(),
                forall|j: int| 0 <= j < launchers@.len() ==> self@.contains_key(#[trigger] launchers@[j]),
                first_at(self@, launchers@, placement) == first_at(self@, launchers@.skip(i as int), placement),
            decreases launchers@.len() - i,
        {
            let ghost rest = launchers@.skip(i as int);
            proof {
                assert(rest[0] == launchers@[i as int]);
                assert(rest.drop_first() =~= launchers@.skip(i + 1));
            }
            let candidate = launchers[i];
            let p = match self.positions.get(&candidate) {
                Some(p) => *p,
                None => return None,
            };
            if p == placement {
                return Some(candidate);
            }
            i += 1;
        }
        proof {
            assert(launchers@.skip(i as int).len() == 0);
        }
        None
    }

    /// The launchers that pushing `launcher` one step in `direction` moves: the contiguous run of
    /// occupied slots starting at `launcher`, last first, each with its new slot.
    ///
    /// Refused when the run would be pushed beyond the matrix boundary.
    pub fn shifted_launchers(&self, launchers: &[LaunchProfileId], launcher: LaunchProfileId, direction: MoveDirection) -> (r: Result<Vec<(LaunchProfileId, MatrixPlacement)>, MatrixError>)
        requires
            self.wf(),
            self@.contains_key(launcher),
            forall|i: int| 0 <= i < launchers@.len() ==> self@.contains_key(#[trigger] launchers@[i]),
        ensures
            match spec_shifted(self@, launchers@, launcher, direction) {
                None => r == Err::<Vec<(LaunchProfileId, MatrixPlacement)>, MatrixError>(MatrixError::Boundary),
                Some(s) => r is Ok && r->Ok_0@ == s,
            },
    {
        let start = match self.positions.get(&launcher) {
            Some(p) => *p,
            None => return Err(MatrixError::Boundary),
        };
        let mut shifted: Vec<(LaunchProfileId, MatrixPlacement)> = Vec::new();
        shifted.push((launcher, start));
        let ghost goal = spec_run(self@, launchers@, start, direction);
        let mut leading = start;
        loop
            invariant
                self.wf(),
                forall|i: int| 0 <= i < launchers@.len() ==> self@.contains_key(#[trigger] launchers@[i]),
                shifted@.len() >= 1,
                shifted@[0] == (launcher, start),
                start == self@[launcher],
                shifted@.last().1 == leading,
                goal == spec_run(self@, launchers@, start, direction),
                goal == match spec_run(self@, launchers@, leading, direction) {
                    None => None,
                    Some(rest) => Some(shifted@.drop_first() + rest),
                },
                forall|i: int| 0 <= i < shifted@.len() - 1 ==> (#[trigger] spec_moved(shifted@[i].1, direction)) is Some,
            ensures
                shifted@.len() >= 1,
                shifted@[0] == (launcher, start),
                goal == spec_run(self@, launchers@, start, direction),
                goal == Some(shifted@.drop_first()),
                forall|i: int| 0 <= i < shifted@.len() ==> (#[trigger] spec_moved(shifted@[i].1, direction)) is Some,
            decreases steps_to_boundary(leading, direction),
        {
            let next = match Self::moved_placement(leading, direction) {
                Some(next) => next,
                None => {
                    proof {
                        assert(spec_run(self@, launchers@, leading, direction) is None);
                    }
                    return Err(MatrixError::Boundary);
                },
            };
            match self.find_at(launchers, next) {
                Some(next_launcher) => {
                    proof {
                        assert(spec_run(self@, launchers@, leading, direction) == match spec_run(self@, launchers@, next, direction) {
                            None => None,
                            Some(rest) => Some(seq![(next_launcher, next)] + rest),
                        });
                    }
                    let ghost before = shifted@;
                    shifted.push((next_launcher, next));
                    proof {
                        assert(shifted@.drop_first() =~= before.drop_first() + seq![(next_launcher, next)]);
                        match spec_run(self@, launchers@, next, direction) {
                            None => {},
                            Some(rest) => {
                                assert(shifted@.drop_first() + rest =~= before.drop_first() + (seq![(next_launcher, next)] + rest));
                            },
                        }
                    }
                    leading = next;
                },
                None => {
                    proof {
                        assert(spec_run(self@, launchers@, leading, direction) == Some(Seq::<(LaunchProfileId, MatrixPlacement)>::empty()));
                        assert(shifted@.drop_first() + Seq::<(LaunchProfileId, MatrixPlacement)>::empty() =~= shifted@.drop_first());
                        assert forall|i: int| 0 <= i < shifted@.len() implies (#[trigger] spec_moved(shifted@[i].1, direction)) is Some by {
                            if i == shifted@.len() - 1 {
                                assert(shifted@[i].1 == leading);
                            }
                        }
                    }
                    break;
                },
            }
        }
        let ghost chain = shifted@;
        proof {
            assert(seq![(launcher, start)] + chain.drop_first() =~= chain);
        }
        let mut result: Vec<(LaunchProfileId, MatrixPlacement)> = Vec::new();
        let mut k: usize = shifted.len();
        while k > 0
            invariant
                k <= chain.len(),
                shifted@ == chain,
                forall|i: int| 0 <= i < chain.len() ==> (#[trigger] spec_moved(chain[i].1, direction)) is Some,
                result@.len() == chain.len() - k,
                forall|j: int| 0 <= j < result@.len() ==> #[trigger] result@[j] == moved_entries(chain.reverse(), direction)[j],
            decreases k,
        {
            k -= 1;
            let (l, p) = shifted[k];
            let moved = match Self::moved_placement(p, direction) {
                Some(moved) => moved,
                None => return Err(MatrixError::Boundary),
            };
            result.push((l, moved));
        }
        proof {
            assert(result@ =~= moved_entries(chain.reverse(), direction));
        }
        Ok(result)
    }

    /// Forget the position of `launcher`; refused when it has none.
    pub fn remove(&mut self, launcher: &LaunchProfileId) -> (r: Result<(), MapError>)
        requires
            old(self).wf(),
        ensures
            final(self).wf(),
            final(self)@ == old(self)@.remove(*launcher),
            r is Err <==> !old(self)@.contains_key(*launcher),
            r is Err ==> r == Err::<(), MapError>(MapError::KeyMissing),
    {
        self.positions.remove(launcher)
    }

    /// Remove the slot `placement`: the launchers right of it in its row move one column left.
    pub fn remove_slot(&mut self, launchers: &[LaunchProfileId], placement: MatrixPlacement, shifting_policy: RemoveSlotShiftingPolicy)
        requires
            old(self).wf(),
            forall|i: int| 0 <= i < launchers@.len() ==> old(self)@.contains_key(#[trigger] launchers@[i]),
        ensures
            final(self).wf(),
            final(self)@ == spec_remove_slot(old(self)@, launchers@, placement),
    {
        match shifting_policy {
            RemoveSlotShiftingPolicy::ShiftLeft => {
                let mut i: usize = 0;
                while i < launchers.len()
                    invariant
                        self.wf(),
                        i <= launchers@.len(),
                        forall|j: int| 0 <= j < launchers@.len() ==> old(self)@.contains_key(#[trigger] launchers@[j]),
                        self@.dom() == old(self)@.dom(),
                        self@ == spec_remove_slot(old(self)@, launchers@.take(i as int), placement),
                    decreases launchers@.len() - i,
                {
                    proof {
                        assert(launchers@.take(i + 1).drop_last() =~= launchers@.take(i as int));
                        assert(self@.contains_key(launchers@[i as int]));
                    }
                    let launcher = launchers[i];
                    match self.positions.get_mut(&launcher) {
                        Some(position) => {
                            if position.row == placement.row && position.column > placement.column {
                                position.column = position.column - 1;
                            }
                        },
                        None => {},
                    }
                    proof {
                        assert(self@.dom() =~= old(self)@.dom());
                    }
                    i += 1;
                }
                proof {
                    assert(launchers@.take(i as int) =~= launchers@);
                }
            },
        }
    }

    pub fn get(&self, launcher: &LaunchProfileId) -> (r: Option<&MatrixPlacement>)
        requires
            self.wf(),
        ensures
            match r {
                Some(p) => self@.contains_key(*launcher) && self@[*launcher] == *p,
                None => !self@.contains_key(*launcher),
            },
    {
        self.positions.get(launcher)
    }

    pub fn get_mut(&mut self, launcher: &LaunchProfileId) -> (r: Option<&mut MatrixPlacement>)
        requires
            old(self).wf(),
        ensures
            final(self).wf(),
            match r {
                Some(p) => old(self)@.contains_key(*launcher) && *p == old(self)@[*launcher]
                    && final(self)@ == old(self)@.insert(*launcher, *final(p)),
                None => !old(self)@.contains_key(*launcher) && final(self)@ == old(self)@,
            },
    {
        self.positions.get_mut(launcher)
    }

    /// Record `placement` for `launcher` whether or not it had a position.
    pub fn set(&mut self, launcher: LaunchProfileId, placement: MatrixPlacement)
        requires
            old(self).wf(),
        ensures
            final(self).wf(),
            final(self)@ == old(self)@.insert(launcher, placement),
    {
        self.positions.insert_or_update(launcher, placement)
    }
}

impl Default for MatrixPositions {
    fn default() -> (r: Self)
        ensures
            r.wf(),
            r@ == Map::<LaunchProfileId, MatrixPlacement>::empty(),
    {
        Self::new()
    }
}

} // verus!
