use desktop::change::{DesktopCommand, ZoomChange};
use desktop::keyboard_shortcuts::{match_desktop_keyboard_shortcut, DesktopKeyboardShortcut, KeyInput, ShortcutKey};
use desktop::{Direction, DesktopTarget, InstanceId, LaunchProfileId, OrderedHierarchy};

fn input(key: ShortcutKey, ctrl: bool) -> KeyInput {
    KeyInput { key, pressed: true, repeat: false, command: true, ctrl }
}

#[test]
fn instance_shortcuts_need_a_focused_instance_of_a_launcher() {
    let launcher = LaunchProfileId::new();
    let instance = InstanceId::new();
    let mut h = OrderedHierarchy::new();
    h.add(DesktopTarget::Desktop, DesktopTarget::Launcher(launcher)).unwrap();
    h.add(DesktopTarget::Launcher(launcher), DesktopTarget::Instance(instance)).unwrap();
    let focus = DesktopTarget::Instance(instance);
    assert_eq!(
        match_desktop_keyboard_shortcut(&h, Some(&focus), &input(ShortcutKey::Character("t".to_string()), false)),
        Some(DesktopKeyboardShortcut::NewInstance(launcher))
    );
    assert_eq!(
        match_desktop_keyboard_shortcut(&h, Some(&focus), &input(ShortcutKey::Character("w".to_string()), false)),
        Some(DesktopKeyboardShortcut::CloseInstance(instance))
    );
    assert_eq!(match_desktop_keyboard_shortcut(&h, Some(&focus), &input(ShortcutKey::Character("x".to_string()), false)), None);
    let on_launcher = DesktopTarget::Launcher(launcher);
    assert_eq!(match_desktop_keyboard_shortcut(&h, Some(&on_launcher), &input(ShortcutKey::Character("t".to_string()), false)), None);
}

#[test]
fn arrows_navigate_or_zoom() {
    let h: OrderedHierarchy<DesktopTarget> = OrderedHierarchy::new();
    assert_eq!(
        match_desktop_keyboard_shortcut(&h, None, &input(ShortcutKey::ArrowLeft, false)),
        Some(DesktopKeyboardShortcut::Navigate(Direction::Left))
    );
    assert_eq!(match_desktop_keyboard_shortcut(&h, None, &input(ShortcutKey::ArrowUp, true)), Some(DesktopKeyboardShortcut::ZoomIn));
    assert_eq!(match_desktop_keyboard_shortcut(&h, None, &input(ShortcutKey::ArrowDown, true)), Some(DesktopKeyboardShortcut::ZoomOut));
    assert_eq!(
        match_desktop_keyboard_shortcut(&h, None, &input(ShortcutKey::ArrowRight, true)),
        Some(DesktopKeyboardShortcut::Navigate(Direction::Right))
    );
    assert_eq!(match_desktop_keyboard_shortcut(&h, None, &input(ShortcutKey::Other, false)), None);
    let released = KeyInput { key: ShortcutKey::ArrowLeft, pressed: false, repeat: false, command: true, ctrl: false };
    assert_eq!(match_desktop_keyboard_shortcut(&h, None, &released), None);
    let plain = KeyInput { key: ShortcutKey::ArrowLeft, pressed: true, repeat: false, command: false, ctrl: false };
    assert_eq!(match_desktop_keyboard_shortcut(&h, None, &plain), None);
}

#[test]
fn shortcuts_become_commands() {
    let launcher = LaunchProfileId::new();
    assert!(matches!(
        DesktopKeyboardShortcut::NewInstance(launcher).into_command(),
        DesktopCommand::StartInstance { launcher: l, spawn: true, .. } if l == launcher
    ));
    assert!(matches!(DesktopKeyboardShortcut::ZoomIn.into_command(), DesktopCommand::Zoom(ZoomChange::In)));
    assert!(matches!(DesktopKeyboardShortcut::Navigate(Direction::Up).into_command(), DesktopCommand::Navigate(Direction::Up)));
}
