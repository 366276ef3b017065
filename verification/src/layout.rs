//! Track arithmetic of the desktop's layout, and how a child's placement changed.
use vstd::prelude::*;

verus! {

/// The sum of the first `n` tracks.
pub open spec fn track_sum(tracks: Seq<u32>, n: int) -> int
    decreases n,
{
    if n <= 0 {
        0
    } else {
        track_sum(tracks, n - 1) + tracks[n - 1]
    }
}

/// The extent of `tracks` laid out one after the other with `spacing` between neighbors.
pub open spec fn spec_tracks_span(tracks: Seq<u32>, spacing: u32) -> int {
    track_sum(tracks, tracks.len() as int) + spacing * (if tracks.len() > 0 { tracks.len() - 1 } else { 0 })
}

/// One track and the spacing after it, each read as an `i32`.
pub open spec fn offset_step(track: u32, spacing: u32) -> int {
    (track as i32) + (spacing as i32)
}

/// The offset of the track at `n`: the steps of the tracks before it.
pub open spec fn spec_track_offset(tracks: Seq<u32>, n: int, spacing: u32) -> int
    decreases n,
{
    if n <= 0 {
        0
    } else {
        spec_track_offset(tracks, n - 1, spacing) + offset_step(tracks[n - 1], spacing)
    }
}

/// The number of tracks before the track at `index` (all of them when it lies beyond the end).
pub open spec fn tracks_before(tracks: Seq<u32>, index: usize) -> int {
    if index < tracks.len() {
        index as int
    } else {
        tracks.len() as int
    }
}

proof fn lemma_track_sum_monotone(tracks: Seq<u32>, a: int, b: int)
    requires
        0 <= a <= b <= tracks.len(),
    ensures
        track_sum(tracks, a) <= track_sum(tracks, b),
    decreases b - a,
{
    if a < b {
        lemma_track_sum_monotone(tracks, a, b - 1);
    }
}

/// The extent of tracks laid out with `spacing` between neighbors.
pub fn tracks_span(tracks: &[u32], spacing: u32) -> (r: u32)
    requires
        tracks@.len() <= u32::MAX,
        spec_tracks_span(tracks@, spacing) <= u32::MAX,
    ensures
        r == spec_tracks_span(tracks@, spacing),
{
    let n = tracks.len();
    let gaps: u32 = if n > 0 {
        (n - 1) as u32
    } else {
        0
    };
    let ghost total = spec_tracks_span(tracks@, spacing);
    assert(spacing * gaps >= 0) by (nonlinear_arith);
    assert(track_sum(tracks@, n as int) <= total);
    let mut sum: u32 = 0;
    let mut i: usize = 0;
    while i < n
        invariant
            n == tracks@.len(),
            i <= n,
            sum == track_sum(tracks@, i as int),
            track_sum(tracks@, n as int) <= u32::MAX,
        decreases n - i,
    {
        proof {
            lemma_track_sum_monotone(tracks@, i + 1, n as int);
        }
        sum = sum + tracks[i];
        i += 1;
    }
    assert(spacing * gaps <= u32::MAX) by (nonlinear_arith)
        requires
            sum + spacing * gaps <= u32::MAX,
            sum >= 0,
    ;
    sum + spacing * gaps
}

/// The offset of the track at `index`: each track before it with the spacing after it.
pub fn track_offset(tracks: &[u32], index: usize, spacing: u32) -> (r: i32)
    requires
        forall|k: int| 0 <= k <= tracks_before(tracks@, index) ==> i32::MIN <= #[trigger] spec_track_offset(tracks@, k, spacing) <= i32::MAX,
        forall|k: int|
            0 <= k < tracks_before(tracks@, index) ==> i32::MIN <= #[trigger] offset_step(tracks@[k], spacing) <= i32::MAX,
    ensures
        r == spec_track_offset(tracks@, tracks_before(tracks@, index), spacing),
{
    let n: usize = if index < tracks.len() {
        index
    } else {
        tracks.len()
    };
    let mut offset: i32 = 0;
    let mut i: usize = 0;
    while i < n
        invariant
            n as int == tracks_before(tracks@, index),
            n <= tracks@.len(),
            i <= n,
            offset == spec_track_offset(tracks@, i as int, spacing),
            forall|k: int| 0 <= k <= n ==> i32::MIN <= #[trigger] spec_track_offset(tracks@, k, spacing) <= i32::MAX,
            forall|k: int| 0 <= k < n ==> i32::MIN <= #[trigger] offset_step(tracks@[k], spacing) <= i32::MAX,
        decreases n - i,
    {
        let track = tracks[i];
        assert(i32::MIN <= offset_step(tracks@[i as int], spacing) <= i32::MAX);
        assert(i32::MIN <= spec_track_offset(tracks@, i + 1, spacing) <= i32::MAX);
        let step: i32 = track as i32 + spacing as i32;
        offset = offset + step;
        i += 1;
    }
    offset
}

/// How the placement of a child changed when its parent was placed again.
#[derive(Debug, Clone, Copy, PartialEq, Eq, Structural)]
pub enum PlacementUpdate {
    Unchanged,
    ChangedSizeUnchanged,
    ChangedSizeChanged,
}

/// How a child's placement changed: `current` is `None` when it had no placement yet, else
/// whether the new placement equals the current one and whether its size does.
pub fn placement_update(current: Option<(bool, bool)>) -> (r: PlacementUpdate)
    ensures
        r == match current {
            None => PlacementUpdate::ChangedSizeChanged,
            Some((same_placement, same_size)) => if same_placement {
                PlacementUpdate::Unchanged
            } else if same_size {
                PlacementUpdate::ChangedSizeUnchanged
            } else {
                PlacementUpdate::ChangedSizeChanged
            },
        },
{
    match current {
        None => PlacementUpdate::ChangedSizeChanged,
        Some((same_placement, same_size)) => {
            if same_placement {
                PlacementUpdate::Unchanged
            } else if same_size {
                PlacementUpdate::ChangedSizeUnchanged
            } else {
                PlacementUpdate::ChangedSizeChanged
            }
        },
    }
}

} // verus!
