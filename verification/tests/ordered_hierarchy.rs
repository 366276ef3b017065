use desktop::{DirectionBias, HierarchyError, OrderedHierarchy};

fn hierarchy() -> OrderedHierarchy<i32> {
    OrderedHierarchy::new()
}

#[test]
fn insert_root() {
    let hierarchy = hierarchy();

    assert_eq!(hierarchy.parent(&1), None);
    assert_eq!(hierarchy.get_nested(&1), &[] as &[i32]);
}

#[test]
fn insert_nested_append() {
    let mut hierarchy = hierarchy();
    hierarchy.add(1, 2).unwrap();

    assert_eq!(hierarchy.parent(&2), Some(&1));
    assert_eq!(hierarchy.get_nested(&1), &[2]);
}

#[test]
fn insert_nested_at_index() {
    let mut hierarchy = hierarchy();
    hierarchy.add(1, 2).unwrap();
    hierarchy.insert_at(1, 0, 3).unwrap();

    assert_eq!(hierarchy.get_nested(&1), &[3, 2]);
}

#[test]
fn insert_invalid_index() {
    let mut hierarchy = hierarchy();

    let result = hierarchy.insert_at(1, 5, 2);
    assert!(result.is_err());
}

#[test]
fn remove_with_nested() {
    let mut hierarchy = hierarchy();
    hierarchy.add(1, 2).unwrap();
    hierarchy.add(2, 3).unwrap();

    hierarchy.remove(&1).unwrap();

    assert_eq!(hierarchy.parent(&1), None);
    assert_eq!(hierarchy.parent(&2), None);
    assert_eq!(hierarchy.parent(&3), None);
    assert_eq!(hierarchy.get_nested(&1), &[] as &[i32]);
    assert_eq!(hierarchy.get_nested(&2), &[] as &[i32]);
}

#[test]
fn remove_removes_from_parent_list() {
    let mut hierarchy = hierarchy();
    hierarchy.add(1, 2).unwrap();
    hierarchy.add(1, 3).unwrap();

    hierarchy.remove(&2).unwrap();

    assert_eq!(hierarchy.get_nested(&1), &[3]);
}

#[test]
fn remove_preserves_order() {
    let mut hierarchy = hierarchy();
    hierarchy.add(1, 2).unwrap();
    hierarchy.add(1, 3).unwrap();
    hierarchy.add(1, 4).unwrap();
    hierarchy.add(1, 5).unwrap();

    hierarchy.remove(&3).unwrap();

    assert_eq!(hierarchy.get_nested(&1), &[2, 4, 5]);
}

#[test]
fn exists_for_empty_parent_after_nested_remove() {
    let mut hierarchy = hierarchy();
    hierarchy.add(1, 2).unwrap();

    hierarchy.remove(&2).unwrap();

    assert!(hierarchy.contains(&1));
}

#[test]
fn group_returns_siblings_with_self() {
    let mut hierarchy = hierarchy();
    hierarchy.add(1, 2).unwrap();
    hierarchy.add(1, 3).unwrap();
    hierarchy.add(1, 4).unwrap();

    assert_eq!(hierarchy.group(&3), &[2, 3, 4]);
}

#[test]
fn group_for_root_is_empty() {
    let hierarchy = hierarchy();

    assert_eq!(hierarchy.group(&1), &[] as &[i32]);
}

#[test]
fn add_refuses_a_node_that_has_a_parent() {
    let mut hierarchy = hierarchy();
    hierarchy.add(1, 2).unwrap();

    assert_eq!(hierarchy.add(3, 2), Err(HierarchyError::AlreadyNested));
    assert_eq!(hierarchy.parent(&2), Some(&1));
    assert!(!hierarchy.contains(&3));
}

#[test]
fn insert_at_refusal_still_creates_the_parent() {
    let mut hierarchy = hierarchy();

    assert_eq!(
        hierarchy.insert_at(1, 5, 2),
        Err(HierarchyError::IndexOutOfBounds { index: 5, len: 0 })
    );
    assert!(hierarchy.contains(&1));
    assert!(!hierarchy.contains(&2));
}

#[test]
fn remove_of_a_missing_node_is_refused() {
    let mut hierarchy = hierarchy();
    hierarchy.add(1, 2).unwrap();

    assert_eq!(hierarchy.remove(&7), Err(HierarchyError::NotFound));
    assert_eq!(hierarchy.get_nested(&1), &[2]);
}

#[test]
fn remove_undoes_add_of_a_new_leaf() {
    let mut hierarchy = hierarchy();
    hierarchy.add(1, 2).unwrap();
    hierarchy.add(1, 3).unwrap();

    hierarchy.add(1, 9).unwrap();
    hierarchy.remove(&9).unwrap();

    assert_eq!(hierarchy.get_nested(&1), &[2, 3]);
    assert!(!hierarchy.contains(&9));
}

#[test]
fn add_nested_stops_at_the_first_refusal() {
    let mut hierarchy = hierarchy();
    hierarchy.add(5, 3).unwrap();

    assert_eq!(hierarchy.add_nested(1, vec![2, 3, 4]), Err(HierarchyError::AlreadyNested));
    assert_eq!(hierarchy.get_nested(&1), &[2]);
    assert!(!hierarchy.contains(&4));
}

#[test]
fn remove_of_a_cycle_member_removes_the_cycle() {
    let mut hierarchy = hierarchy();
    hierarchy.add(1, 2).unwrap();
    hierarchy.add(2, 1).unwrap();

    hierarchy.remove(&1).unwrap();

    assert!(!hierarchy.contains(&1));
    assert!(!hierarchy.contains(&2));
}

#[test]
fn entry_neighbor_prefers_the_bias_side_inside_the_group() {
    let mut hierarchy = hierarchy();
    hierarchy.add_nested(1, vec![2, 3, 4]).unwrap();

    assert_eq!(hierarchy.entry(&3).index(), Some(1));
    assert_eq!(hierarchy.entry(&3).neighbor(DirectionBias::Begin), Some(&2));
    assert_eq!(hierarchy.entry(&3).neighbor(DirectionBias::End), Some(&4));
    assert_eq!(hierarchy.entry(&2).neighbor(DirectionBias::Begin), Some(&3));
    assert_eq!(hierarchy.entry(&4).neighbor(DirectionBias::End), Some(&3));
    assert_eq!(hierarchy.entry(&1).neighbor(DirectionBias::End), None);
    assert!(hierarchy.entry(&1).has_nested());
    assert_eq!(hierarchy.entry(&4).parent(), Some(&1));
}

#[test]
fn entry_neighbor_of_a_single_child_is_none() {
    let mut hierarchy = hierarchy();
    hierarchy.add(1, 2).unwrap();

    assert_eq!(hierarchy.entry(&2).neighbor(DirectionBias::Begin), None);
    assert_eq!(hierarchy.entry(&2).group(), &[2]);
    assert_eq!(hierarchy.entry(&2).nested(), &[] as &[i32]);
}
