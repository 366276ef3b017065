use desktop::focus_manager::{FocusManager, FocusPath, FocusTransition, ViewPath};
use desktop::{InstanceId, ViewId};

fn enter(instance: InstanceId, view: Option<ViewId>) -> FocusTransition {
    FocusTransition::Enter(FocusPath { instance, view })
}

fn exit(instance: InstanceId, view: Option<ViewId>) -> FocusTransition {
    FocusTransition::Exit(FocusPath { instance, view })
}

#[test]
fn initially_nothing_is_focused() {
    let manager = FocusManager::new();
    assert_eq!(manager.focused(), None);
    assert_eq!(manager.focused_instance(), None);
    assert_eq!(manager.focused_view(), None);
}

#[test]
fn focusing_a_view_enters_instance_then_view() {
    let instance = InstanceId::new();
    let view = ViewId::new();
    let mut manager = FocusManager::default();
    let transitions = manager.focus(FocusPath::from(ViewPath { instance, view }));
    assert_eq!(transitions, vec![enter(instance, None), enter(instance, Some(view))]);
    assert_eq!(manager.focused_view(), Some(ViewPath { instance, view }));
    assert_eq!(manager.focused_instance(), Some(instance));
}

#[test]
fn switching_views_within_an_instance_keeps_the_instance() {
    let instance = InstanceId::new();
    let first = ViewId::new();
    let second = ViewId::new();
    let mut manager = FocusManager::new();
    let _ = manager.focus(FocusPath { instance, view: Some(first) });
    let transitions = manager.focus(FocusPath { instance, view: Some(second) });
    assert_eq!(transitions, vec![exit(instance, Some(first)), enter(instance, Some(second))]);
    assert!(manager.focus(FocusPath { instance, view: Some(second) }).is_empty());
}

#[test]
fn switching_instances_exits_the_old_one_first() {
    let a = InstanceId::new();
    let b = InstanceId::new();
    let view = ViewId::new();
    let mut manager = FocusManager::new();
    let _ = manager.focus(FocusPath { instance: a, view: Some(view) });
    let transitions = manager.focus(FocusPath::from(b));
    assert_eq!(transitions, vec![exit(a, Some(view)), exit(a, None), enter(b, None)]);
    assert_eq!(manager.focused(), Some(FocusPath { instance: b, view: None }));
}

#[test]
fn unfocus_view_keeps_the_instance() {
    let instance = InstanceId::new();
    let view = ViewId::new();
    let mut manager = FocusManager::new();
    let _ = manager.focus(FocusPath { instance, view: Some(view) });
    assert_eq!(manager.unfocus_view(), vec![exit(instance, Some(view))]);
    assert_eq!(manager.focused_instance(), Some(instance));
    assert!(manager.unfocus_view().is_empty());
    assert_eq!(manager.unfocus(), vec![exit(instance, None)]);
    assert_eq!(manager.focused(), None);
    assert!(manager.unfocus().is_empty());
}
