use desktop::event_router::{EventRouter, EventTransition, NavigationTarget, ProcessOutcome, RouterError, RouterEvent};

fn transitions(outcome: ProcessOutcome<u32>) -> Vec<EventTransition<u32>> {
    match outcome {
        ProcessOutcome::Transitions(t) => t.into_vec(),
        ProcessOutcome::Focus(f) => panic!("unexpected focus suggestion {f:?}"),
    }
}

#[test]
fn focus_reports_a_change_once() {
    let mut router: EventRouter<u32> = EventRouter::new();
    let t = router.focus(Some(&1)).into_vec();
    assert_eq!(t, vec![EventTransition::ChangeKeyboardFocus { from: None, to: Some(1) }]);
    assert!(router.focus(Some(&1)).into_vec().is_empty());
    assert_eq!(router.focused(), Some(&1));
}

#[test]
fn cursor_moves_change_the_pointer_focus_and_forward_the_event() {
    let mut router: EventRouter<u32> = EventRouter::new();
    let t = transitions(router.process(RouterEvent::CursorMoved { any_pressed: false, hit: Some(7) }));
    assert_eq!(t, vec![EventTransition::ChangePointerFocus { from: None, to: Some(7) }, EventTransition::Send(7)]);
    // A pressed button keeps the pointer focus while the previous target is still hit.
    let t = transitions(router.process(RouterEvent::CursorMoved { any_pressed: true, hit: Some(7) }));
    assert_eq!(t, vec![EventTransition::Send(7)]);
    let t = transitions(router.process(RouterEvent::CursorMoved { any_pressed: true, hit: None }));
    assert_eq!(t, vec![EventTransition::ChangePointerFocus { from: Some(7), to: None }]);
    assert_eq!(router.pointer_focus(), None);
}

#[test]
fn a_press_suggests_focusing_the_pointer_target() {
    let mut router: EventRouter<u32> = EventRouter::new();
    let _ = router.process(RouterEvent::CursorMoved { any_pressed: false, hit: Some(3) });
    match router.process(RouterEvent::MousePressed) {
        ProcessOutcome::Focus(Some(NavigationTarget { target, forward_event })) => {
            assert_eq!(target, 3);
            assert!(forward_event);
        }
        _ => panic!("expected a focus suggestion"),
    }
}

#[test]
fn a_press_on_nothing_suggests_removing_the_keyboard_focus() {
    let mut router: EventRouter<u32> = EventRouter::new();
    let _ = router.focus(Some(&2));
    assert!(matches!(router.process(RouterEvent::MousePressed), ProcessOutcome::Focus(None)));
    let mut idle: EventRouter<u32> = EventRouter::new();
    assert!(transitions(idle.process(RouterEvent::MousePressed)).is_empty());
}

#[test]
fn keyboard_and_modifier_events_go_to_the_focused_targets() {
    let mut router: EventRouter<u32> = EventRouter::new();
    let _ = router.focus(Some(&1));
    let _ = router.process(RouterEvent::CursorMoved { any_pressed: false, hit: Some(2) });
    assert_eq!(transitions(router.process(RouterEvent::KeyboardInput)), vec![EventTransition::Send(1)]);
    assert_eq!(transitions(router.process(RouterEvent::PointerInput)), vec![EventTransition::Send(2)]);
    assert_eq!(
        transitions(router.process(RouterEvent::ModifiersChanged)),
        vec![EventTransition::Send(1), EventTransition::Send(2)]
    );
    let _ = router.process(RouterEvent::CursorMoved { any_pressed: false, hit: Some(1) });
    assert_eq!(transitions(router.process(RouterEvent::ModifiersChanged)), vec![EventTransition::Send(1)]);
    assert!(transitions(router.process(RouterEvent::Ignored)).is_empty());
}

#[test]
fn window_focus_loss_and_return_restore_the_keyboard_focus() {
    let mut router: EventRouter<u32> = EventRouter::new();
    let _ = router.focus(Some(&5));
    assert!(matches!(router.process(RouterEvent::Focused(false)), ProcessOutcome::Focus(None)));
    let _ = router.focus(None);
    match router.process(RouterEvent::Focused(true)) {
        ProcessOutcome::Focus(Some(NavigationTarget { target: 5, forward_event: false })) => {}
        _ => panic!("expected the previous focus to come back"),
    }
    // A repeated window focus event is redundant.
    assert!(transitions(router.process(RouterEvent::Focused(true))).is_empty());
}

#[test]
fn removed_targets_must_not_be_referenced() {
    let mut router: EventRouter<u32> = EventRouter::new();
    let _ = router.focus(Some(&1));
    let _ = router.process(RouterEvent::CursorMoved { any_pressed: false, hit: Some(2) });
    assert_eq!(router.notify_removed(&1), Err(RouterError::KeyboardFocus));
    assert_eq!(router.notify_removed(&2), Err(RouterError::PointerFocus));
    assert_eq!(router.notify_removed(&3), Ok(()));
    let _ = router.set_outer_focus(false);
    let _ = router.focus(None);
    assert_eq!(router.notify_removed(&1), Err(RouterError::OuterFocus));
}

#[test]
fn pointer_focus_can_be_reset_and_removed() {
    let mut router: EventRouter<u32> = EventRouter::new();
    assert!(router.reset_pointer_focus(None).unwrap().into_vec().is_empty());
    let t = router.reset_pointer_focus(Some(Some(4))).unwrap().into_vec();
    assert_eq!(t, vec![EventTransition::ChangePointerFocus { from: None, to: Some(4) }]);
    assert!(matches!(router.reset_pointer_focus(None), Err(RouterError::NoPointerPosition)));
    let t = router.unfocus_pointer().into_vec();
    assert_eq!(t, vec![EventTransition::ChangePointerFocus { from: Some(4), to: None }]);
}

#[test]
fn targets_affected_by_keyboard_focus_changes() {
    let mut router: EventRouter<u32> = EventRouter::new();
    let _ = router.focus(Some(&1));
    let t = router.focus(Some(&2));
    assert_eq!(t.targets_affected_by_keyboard_focus_change(), vec![1, 2]);
}
