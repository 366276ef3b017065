use desktop::{LaunchProfileId, MatrixError, MatrixPlacement, MatrixPositions, MoveDirection, RemoveSlotShiftingPolicy};

fn matrix_positions(entries: impl IntoIterator<Item = (LaunchProfileId, MatrixPlacement)>) -> MatrixPositions {
    let mut positions = MatrixPositions::default();
    for (launcher, placement) in entries {
        positions.place(&[], launcher, placement).unwrap();
    }
    positions
}

#[test]
fn shifted_launchers_moves_a_contiguous_run_in_reverse_order() {
    let first = LaunchProfileId::new();
    let second = LaunchProfileId::new();
    let third = LaunchProfileId::new();
    let positions = matrix_positions([
        (first, MatrixPlacement { column: 1, row: 0 }),
        (second, MatrixPlacement { column: 2, row: 0 }),
        (third, MatrixPlacement { column: 3, row: 0 }),
    ]);

    let shifted = positions
        .shifted_launchers(&[first, second, third], first, MoveDirection::Right)
        .unwrap();

    assert_eq!(
        shifted,
        vec![
            (third, MatrixPlacement { column: 4, row: 0 }),
            (second, MatrixPlacement { column: 3, row: 0 }),
            (first, MatrixPlacement { column: 2, row: 0 }),
        ]
    );
}

#[test]
fn shifted_launchers_stops_at_the_first_empty_slot() {
    let first = LaunchProfileId::new();
    let second = LaunchProfileId::new();
    let positions = matrix_positions([
        (first, MatrixPlacement { column: 1, row: 0 }),
        (second, MatrixPlacement { column: 3, row: 0 }),
    ]);

    let shifted = positions
        .shifted_launchers(&[first, second], first, MoveDirection::Right)
        .unwrap();

    assert_eq!(shifted, vec![(first, MatrixPlacement { column: 2, row: 0 })]);
}

#[test]
fn shifted_launchers_rejects_left_and_up_boundaries() {
    let launcher = LaunchProfileId::new();
    let positions = matrix_positions([(launcher, MatrixPlacement { column: 0, row: 0 })]);

    assert!(positions.shifted_launchers(&[launcher], launcher, MoveDirection::Left).is_err());
    assert!(positions.shifted_launchers(&[launcher], launcher, MoveDirection::Up).is_err());
}

#[test]
fn place_refuses_an_occupied_slot() {
    let first = LaunchProfileId::new();
    let second = LaunchProfileId::new();
    let mut positions = matrix_positions([(first, MatrixPlacement { column: 1, row: 2 })]);

    assert_eq!(
        positions.place(&[first], second, MatrixPlacement { column: 1, row: 2 }),
        Err(MatrixError::SlotOccupied { column: 1, row: 2 })
    );
    assert_eq!(positions.get(&second), None);
    assert!(positions.is_available(&[first], MatrixPlacement { column: 2, row: 2 }));
    assert!(!positions.is_available(&[first], MatrixPlacement { column: 1, row: 2 }));
}

#[test]
fn moved_placement_stops_at_the_boundary_and_steps_back() {
    let p = MatrixPlacement { column: 0, row: 5 };
    assert_eq!(MatrixPositions::moved_placement(p, MoveDirection::Left), None);
    assert_eq!(
        MatrixPositions::moved_placement(p, MoveDirection::Up),
        Some(MatrixPlacement { column: 0, row: 4 })
    );
    let right = MatrixPositions::moved_placement(p, MoveDirection::Right).unwrap();
    assert_eq!(right, MatrixPlacement { column: 1, row: 5 });
    assert_eq!(MatrixPositions::moved_placement(right, MoveDirection::Left), Some(p));
    let far = MatrixPlacement { column: u32::MAX, row: u32::MAX };
    assert_eq!(MatrixPositions::moved_placement(far, MoveDirection::Right), None);
    assert_eq!(MatrixPositions::moved_placement(far, MoveDirection::Down), None);
}

#[test]
fn remove_slot_shifts_only_the_row_right_of_the_slot() {
    let a = LaunchProfileId::new();
    let b = LaunchProfileId::new();
    let c = LaunchProfileId::new();
    let d = LaunchProfileId::new();
    let mut positions = matrix_positions([
        (a, MatrixPlacement { column: 0, row: 0 }),
        (b, MatrixPlacement { column: 2, row: 0 }),
        (c, MatrixPlacement { column: 3, row: 1 }),
        (d, MatrixPlacement { column: 4, row: 0 }),
    ]);

    positions.remove_slot(&[a, b, c, d], MatrixPlacement { column: 1, row: 0 }, RemoveSlotShiftingPolicy::ShiftLeft);

    assert_eq!(positions.get(&a), Some(&MatrixPlacement { column: 0, row: 0 }));
    assert_eq!(positions.get(&b), Some(&MatrixPlacement { column: 1, row: 0 }));
    assert_eq!(positions.get(&c), Some(&MatrixPlacement { column: 3, row: 1 }));
    assert_eq!(positions.get(&d), Some(&MatrixPlacement { column: 3, row: 0 }));
}

#[test]
fn remove_forgets_a_position_once() {
    let a = LaunchProfileId::new();
    let mut positions = matrix_positions([(a, MatrixPlacement { column: 0, row: 0 })]);

    assert!(positions.remove(&a).is_ok());
    assert!(positions.remove(&a).is_err());
    assert_eq!(positions.get(&a), None);
}
