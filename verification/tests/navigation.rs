use desktop::navigation::select_concrete_instance_index;
use desktop::{Direction, NavigationControl};

#[test]
fn concrete_instance_selection_prefers_directional_edge() {
    assert_eq!(select_concrete_instance_index(3, Direction::Left, None), Some(2));
    assert_eq!(select_concrete_instance_index(3, Direction::Right, None), Some(0));
    assert_eq!(select_concrete_instance_index(3, Direction::Up, None), Some(0));
    assert_eq!(select_concrete_instance_index(3, Direction::Down, None), Some(0));
}

#[test]
fn concrete_instance_selection_returns_none_for_empty_launcher() {
    assert_eq!(select_concrete_instance_index(0, Direction::Left, None), None);
}

#[test]
fn concrete_instance_selection_prefers_focus_anchor_when_available() {
    assert_eq!(select_concrete_instance_index(4, Direction::Left, Some(2)), Some(2));
}

#[test]
fn concrete_instance_selection_ignores_invalid_focus_anchor() {
    assert_eq!(select_concrete_instance_index(2, Direction::Right, Some(7)), Some(0));
}

#[test]
fn navigation_control_clears_column_affinity_on_horizontal_navigation() {
    let mut control = NavigationControl::default();

    let vertical = control.plan_column_affinity(Direction::Down, Some((3, 0).into()));
    control.commit_column_affinity(vertical);
    let horizontal = control.plan_column_affinity(Direction::Right, Some((3, 1).into()));
    control.commit_column_affinity(horizontal);
    let next_vertical = control.plan_column_affinity(Direction::Up, Some((1, 1).into()));
    control.commit_column_affinity(next_vertical);

    assert_eq!(vertical, Some(3));
    assert_eq!(horizontal, None);
    assert_eq!(next_vertical, Some(1));
}

#[test]
fn navigation_control_reset_all_clears_affinity() {
    let mut control = NavigationControl::default();

    let initial = control.plan_column_affinity(Direction::Down, Some((4, 0).into()));
    control.commit_column_affinity(initial);
    control.commit_column_affinity(None);
    let vertical = control.plan_column_affinity(Direction::Down, Some((2, 1).into()));
    control.commit_column_affinity(vertical);

    assert_eq!(vertical, Some(2));
}

#[test]
fn vertical_steps_keep_a_latched_column() {
    let mut control = NavigationControl::default();

    let first = control.plan_column_affinity(Direction::Down, Some((5, 0).into()));
    control.commit_column_affinity(first);
    let second = control.plan_column_affinity(Direction::Down, Some((1, 1).into()));

    assert_eq!(first, Some(5));
    assert_eq!(second, Some(5));
    assert_eq!(control.plan_column_affinity(Direction::Up, None), Some(5));
    assert_eq!(NavigationControl::default().plan_column_affinity(Direction::Up, None), None);
}
