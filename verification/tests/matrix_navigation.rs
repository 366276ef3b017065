use desktop::matrix_navigation::{
    horizontal_child_neighbor, select_column_boundary, select_cross_project_vertical_entry,
    select_matrix_neighbor, select_row_boundary_nearest_column, select_row_neighbor, MatrixEntry,
};
use desktop::navigation::{HorizontalDirection, VerticalDirection};
use desktop::{Direction, InstanceId};

fn sample_entries() -> Vec<MatrixEntry<usize>> {
    vec![
        MatrixEntry { key: 1, placement: (0, 0).into() },
        MatrixEntry { key: 2, placement: (2, 0).into() },
        MatrixEntry { key: 3, placement: (0, 2).into() },
        MatrixEntry { key: 4, placement: (2, 2).into() },
        MatrixEntry { key: 5, placement: (1, 3).into() },
    ]
}

#[test]
fn matrix_horizontal_navigation_skips_empty_cells() {
    let entries = sample_entries();

    let left = select_matrix_neighbor(&entries, (2, 0).into(), Direction::Left, None);
    let right = select_matrix_neighbor(&entries, (0, 0).into(), Direction::Right, None);

    assert_eq!(left, Some(1));
    assert_eq!(right, Some(2));
}

#[test]
fn matrix_vertical_navigation_skips_empty_cells() {
    let entries = sample_entries();

    let down = select_matrix_neighbor(&entries, (0, 0).into(), Direction::Down, None);
    let up = select_matrix_neighbor(&entries, (0, 2).into(), Direction::Up, None);

    assert_eq!(down, Some(3));
    assert_eq!(up, Some(1));
}

#[test]
fn row_neighbor_returns_none_when_no_candidate_exists() {
    let entries = sample_entries();

    let left = select_row_neighbor(&entries, (0, 0).into(), HorizontalDirection::Left);
    let right = select_row_neighbor(&entries, (2, 2).into(), HorizontalDirection::Right);

    assert_eq!(left, None);
    assert_eq!(right, None);
}

#[test]
fn side_row_neighbor_selection_works_for_horizontal_navigation() {
    let entries = vec![
        MatrixEntry { key: 1, placement: (2, 1).into() },
        MatrixEntry { key: 2, placement: (4, 1).into() },
    ];

    let side = select_row_neighbor(&entries, (2, 1).into(), HorizontalDirection::Right);

    assert_eq!(side, Some(2));
}

#[test]
fn cross_project_vertical_prefers_same_column_boundary() {
    let entries = vec![
        MatrixEntry { key: 10, placement: (1, 0).into() },
        MatrixEntry { key: 20, placement: (3, 2).into() },
        MatrixEntry { key: 30, placement: (1, 4).into() },
    ];

    let up = select_cross_project_vertical_entry(&entries, 1, VerticalDirection::Up);
    let down = select_cross_project_vertical_entry(&entries, 1, VerticalDirection::Down);

    assert_eq!(up, Some(30));
    assert_eq!(down, Some(10));
}

#[test]
fn cross_project_vertical_falls_back_to_nearest_column_on_boundary_row() {
    let entries = vec![
        MatrixEntry { key: 10, placement: (0, 1).into() },
        MatrixEntry { key: 20, placement: (4, 1).into() },
        MatrixEntry { key: 30, placement: (2, 3).into() },
        MatrixEntry { key: 40, placement: (6, 3).into() },
    ];

    let down = select_cross_project_vertical_entry(&entries, 3, VerticalDirection::Down);
    let up = select_cross_project_vertical_entry(&entries, 5, VerticalDirection::Up);

    assert_eq!(down, Some(20));
    assert_eq!(up, Some(40));
}

#[test]
fn matrix_vertical_navigation_uses_preferred_column_when_provided() {
    let entries = vec![
        MatrixEntry { key: 1, placement: (0, 0).into() },
        MatrixEntry { key: 2, placement: (2, 0).into() },
        MatrixEntry { key: 3, placement: (0, 2).into() },
        MatrixEntry { key: 4, placement: (2, 2).into() },
    ];

    let up = select_matrix_neighbor(&entries, (0, 2).into(), Direction::Up, Some(2));

    assert_eq!(up, Some(2));
}

#[test]
fn matrix_vertical_navigation_uses_next_non_empty_row_and_nearest_column() {
    let entries = vec![
        MatrixEntry { key: 1, placement: (0, 0).into() },
        MatrixEntry { key: 2, placement: (3, 1).into() },
        MatrixEntry { key: 3, placement: (1, 2).into() },
    ];

    let down = select_matrix_neighbor(&entries, (0, 0).into(), Direction::Down, None);

    assert_eq!(down, Some(2));
}

#[test]
fn nearest_column_ties_go_to_the_left_entry() {
    let entries = vec![
        MatrixEntry { key: 1, placement: (4, 1).into() },
        MatrixEntry { key: 2, placement: (2, 1).into() },
    ];

    assert_eq!(select_matrix_neighbor(&entries, (3, 0).into(), Direction::Down, None), Some(2));
    assert_eq!(select_row_boundary_nearest_column(&entries, 3, VerticalDirection::Up), Some(2));
}

#[test]
fn column_boundary_picks_the_outermost_row() {
    let entries = vec![
        MatrixEntry { key: 1, placement: (1, 5).into() },
        MatrixEntry { key: 2, placement: (1, 2).into() },
        MatrixEntry { key: 3, placement: (0, 9).into() },
    ];

    assert_eq!(select_column_boundary(&entries, 1, VerticalDirection::Up), Some(1));
    assert_eq!(select_column_boundary(&entries, 1, VerticalDirection::Down), Some(2));
    assert_eq!(select_column_boundary(&entries, 7, VerticalDirection::Down), None);
    assert_eq!(select_cross_project_vertical_entry::<usize>(&[], 1, VerticalDirection::Down), None);
}

#[test]
fn child_neighbor_stays_inside_the_launcher() {
    let a = InstanceId::new();
    let b = InstanceId::new();
    let instances = [a, b];

    assert_eq!(horizontal_child_neighbor(&instances, 0, HorizontalDirection::Left), None);
    assert_eq!(horizontal_child_neighbor(&instances, 0, HorizontalDirection::Right), Some(b));
    assert_eq!(horizontal_child_neighbor(&instances, 1, HorizontalDirection::Left), Some(a));
    assert_eq!(horizontal_child_neighbor(&instances, 1, HorizontalDirection::Right), None);
}
