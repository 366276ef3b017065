use desktop::focus_tree::{FocusTransition, FocusTree};
use desktop::{FocusPath, NodeKey};
use std::fmt;

fn format_transitions<T: NodeKey + fmt::Debug>(transitions: &[FocusTransition<T>]) -> String {
    transitions
        .iter()
        .map(|t| match t {
            FocusTransition::Enter(path) => format!("Enter{:?}", path.as_slice()),
            FocusTransition::Exit(path) => format!("Exit{:?}", path.as_slice()),
        })
        .collect::<Vec<_>>()
        .join(", ")
}

fn test_focus<T: NodeKey + fmt::Debug + PartialEq>(from: Vec<T>, to: Vec<T>, expected: &str) {
    let mut tree = FocusTree::new(FocusPath::from(from));
    let transitions = tree.focus(FocusPath::from(to.clone()));
    assert_eq!(format_transitions(&transitions), expected);
    assert_eq!(tree.focused().as_slice(), to.as_slice());
}

#[test]
fn focus_tree_test_focus_transitions() {
    test_focus(vec![1, 2, 3], vec![1, 2, 3], "");
    test_focus(vec![1, 2], vec![1, 3], "Exit[1, 2], Enter[1, 3]");
    test_focus(vec![1], vec![1, 2, 3], "Enter[1, 2], Enter[1, 2, 3]");
    test_focus(vec![1, 2, 3], vec![1], "Exit[1, 2, 3], Exit[1, 2]");
    test_focus(vec![1, 2], vec![3, 4], "Exit[1, 2], Exit[1], Enter[3], Enter[3, 4]");
    test_focus(
        vec!['A', 'B', 'C', 'D'],
        vec!['A', 'B', 'E', 'F'],
        "Exit['A', 'B', 'C', 'D'], Exit['A', 'B', 'C'], Enter['A', 'B', 'E'], Enter['A', 'B', 'E', 'F']",
    );
    test_focus(vec![], vec![1, 2], "Enter[1], Enter[1, 2]");
    test_focus(vec![1, 2], vec![], "Exit[1, 2], Exit[1]");
}

#[test]
fn default_tree_focuses_nothing() {
    let mut tree: FocusTree<u32> = FocusTree::default();
    assert_eq!(tree.focused().len(), 0);
    let transitions = tree.focus(FocusPath::new(7));
    assert_eq!(format_transitions(&transitions), "Enter[7]");
    assert!(tree.focus(FocusPath::new(7)).is_empty());
}

#[test]
fn focus_path_push_and_take() {
    let mut path = FocusPath::new(1u64);
    path.push(2);
    let path = path.with(3);
    assert_eq!(path.as_slice(), &[1, 2, 3]);
    let mut path = path;
    let taken = path.take();
    assert_eq!(taken.as_slice(), &[1, 2, 3]);
    assert_eq!(path.len(), 0);
}
