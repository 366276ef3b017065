use desktop::{DesktopTarget, FocusPath, FocusTransition, InstanceId, LaunchProfileId, OrderedHierarchy, ViewId};
use std::fmt;

fn format_transitions<T: fmt::Debug>(transitions: &[FocusTransition<T>]) -> String {
    transitions
        .iter()
        .map(|t| match t {
            FocusTransition::Enter(target) => format!("Enter{:?}", target),
            FocusTransition::Exit(target) => format!("Exit{:?}", target),
        })
        .collect::<Vec<_>>()
        .join(", ")
}

fn test_focus<T: desktop::NodeKey + fmt::Debug>(from: Vec<T>, to: Vec<T>, expected: &str) {
    let path: FocusPath<T> = from.into();
    let transitions = path.transitions(to.into());
    assert_eq!(format_transitions(&transitions), expected);
}

#[test]
fn focus_path_test_focus_transitions() {
    test_focus(vec![1, 2, 3], vec![1, 2, 3], "");
    test_focus(vec![1, 2], vec![1, 3], "Exit2, Enter3");
    test_focus(vec![1], vec![1, 2, 3], "Enter2, Enter3");
    test_focus(vec![1, 2, 3], vec![1], "Exit3, Exit2");
    test_focus(vec![1, 2], vec![3, 4], "Exit2, Exit1, Enter3, Enter4");
    test_focus(
        vec!['A', 'B', 'C', 'D'],
        vec!['A', 'B', 'E', 'F'],
        "Exit'D', Exit'C', Enter'E', Enter'F'",
    );
    test_focus(vec![], vec![1, 2], "Enter1, Enter2");
    test_focus(vec![1, 2], vec![], "Exit2, Exit1");
}

#[test]
fn transitions_to_the_same_path_are_empty() {
    let path: FocusPath<i32> = vec![4, 5, 6].into();
    assert!(path.transitions(vec![4, 5, 6].into()).is_empty());
}

#[test]
fn join_and_parent_are_inverse() {
    let path = FocusPath::new(1).join(2).join(3);
    assert_eq!(path.as_slice(), &[1, 2, 3]);
    let parent = path.parent().unwrap();
    assert_eq!(parent.as_slice(), &[1, 2]);
    assert_eq!(parent.join(3), path);
    assert!(FocusPath::<i32>::empty().parent().is_none());
    assert_eq!(FocusPath::<i32>::default().len(), 0);
}

#[test]
fn contains_finds_components() {
    let path: FocusPath<char> = vec!['a', 'b'].into();
    assert!(path.contains(&'a'));
    assert!(path.contains(&'b'));
    assert!(!path.contains(&'c'));
}

#[test]
fn resolve_path_lists_root_first() {
    let mut hierarchy = OrderedHierarchy::new();
    hierarchy.add(1, 2).unwrap();
    hierarchy.add(2, 3).unwrap();
    assert_eq!(hierarchy.resolve_path(Some(&3)).as_slice(), &[1, 2, 3]);
    assert_eq!(hierarchy.resolve_path(Some(&1)).as_slice(), &[1]);
    assert_eq!(hierarchy.resolve_path(Some(&9)).as_slice(), &[9]);
    assert_eq!(hierarchy.resolve_path(None).len(), 0);
}

#[test]
fn desktop_path_instance_is_the_innermost_instance() {
    let launcher = LaunchProfileId::new();
    let instance = InstanceId::new();
    let view = ViewId::new();
    let path = FocusPath::new(DesktopTarget::Desktop)
        .join(DesktopTarget::Launcher(launcher))
        .join(DesktopTarget::Instance(instance))
        .join(DesktopTarget::View(view));
    assert_eq!(path.instance(), Some(instance));
    assert_eq!(FocusPath::new(DesktopTarget::Launcher(launcher)).instance(), None);
}
