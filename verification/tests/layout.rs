use desktop::layout::{placement_update, track_offset, tracks_span, PlacementUpdate};

#[test]
fn span_adds_spacing_between_tracks() {
    assert_eq!(tracks_span(&[10, 20, 30], 5), 70);
    assert_eq!(tracks_span(&[10], 5), 10);
    assert_eq!(tracks_span(&[], 5), 0);
}

#[test]
fn offset_sums_the_tracks_before() {
    assert_eq!(track_offset(&[10, 20, 30], 0, 5), 0);
    assert_eq!(track_offset(&[10, 20, 30], 2, 5), 40);
    assert_eq!(track_offset(&[10, 20, 30], 9, 5), 75);
}

#[test]
fn placement_updates() {
    assert_eq!(placement_update(None), PlacementUpdate::ChangedSizeChanged);
    assert_eq!(placement_update(Some((true, true))), PlacementUpdate::Unchanged);
    assert_eq!(placement_update(Some((false, true))), PlacementUpdate::ChangedSizeUnchanged);
    assert_eq!(placement_update(Some((false, false))), PlacementUpdate::ChangedSizeChanged);
}
