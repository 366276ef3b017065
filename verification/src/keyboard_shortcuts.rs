//! The desktop's own keyboard shortcuts.
use vstd::prelude::*;

use crate::change::{DesktopCommand, ZoomChange};
use crate::focus_path::{parent_of, resolvable, spec_path_of};
use crate::hierarchy_focus::{deref_opt, last_instance};
use crate::ids::{DesktopTarget, InstanceId, LaunchProfileId};
use crate::navigation::Direction;
use crate::topology::DesktopTopology;

verus! {

/// A key as the shortcuts read it.
#[derive(Debug, Clone)]
pub enum ShortcutKey {
    Character(String),
    ArrowLeft,
    ArrowRight,
    ArrowUp,
    ArrowDown,
    Other,
}

/// A key event as the shortcuts read it: the key, whether it was pressed (not released) or
/// repeated, and whether the command and control modifiers are held.
#[derive(Debug, Clone)]
pub struct KeyInput {
    pub key: ShortcutKey,
    pub pressed: bool,
    pub repeat: bool,
    pub command: bool,
    pub ctrl: bool,
}

/// What a shortcut asks the desktop to do.
#[derive(Debug, Clone, Copy, PartialEq, Eq, Structural)]
pub enum DesktopKeyboardShortcut {
    NewInstance(LaunchProfileId),
    CloseInstance(InstanceId),
    ZoomOut,
    ZoomIn,
    Navigate(Direction),
}

/// The direction of an arrow key.
pub open spec fn arrow_direction(key: ShortcutKey) -> Option<Direction> {
    match key {
        ShortcutKey::ArrowLeft => Some(Direction::Left),
        ShortcutKey::ArrowRight => Some(Direction::Right),
        ShortcutKey::ArrowUp => Some(Direction::Up),
        ShortcutKey::ArrowDown => Some(Direction::Down),
        _ => None,
    }
}

/// The shortcut of a command-modified key press: with an instance of a launcher focused, `t`
/// opens a new instance of the launcher and `w` closes the instance; arrows navigate, and with
/// control held, up and down zoom in and out.
pub open spec fn spec_shortcut(m: crate::ordered_hierarchy::HierarchyView<DesktopTarget>, focus: Option<DesktopTarget>, input: KeyInput) -> Option<
    DesktopKeyboardShortcut,
> {
    if !(input.pressed && !input.repeat && input.command) {
        None
    } else {
        let on_instance = match last_instance(spec_path_of(m, focus)) {
            Some(i) => match parent_of(m, DesktopTarget::Instance(i)) {
                Some(DesktopTarget::Launcher(l)) => match input.key {
                    ShortcutKey::Character(c) => if c@ == seq!['t'] {
                        Some(DesktopKeyboardShortcut::NewInstance(l))
                    } else if c@ == seq!['w'] {
                        Some(DesktopKeyboardShortcut::CloseInstance(i))
                    } else {
                        None
                    },
                    _ => None,
                },
                _ => None,
            },
            None => None,
        };
        match on_instance {
            Some(s) => Some(s),
            None => match arrow_direction(input.key) {
                Some(d) => if input.ctrl && d == Direction::Up {
                    Some(DesktopKeyboardShortcut::ZoomIn)
                } else if input.ctrl && d == Direction::Down {
                    Some(DesktopKeyboardShortcut::ZoomOut)
                } else {
                    Some(DesktopKeyboardShortcut::Navigate(d))
                },
                None => None,
            },
        }
    }
}

/// The desktop shortcut a key event stands for, if any.
pub fn match_desktop_keyboard_shortcut(hierarchy: &DesktopTopology, focus: Option<&DesktopTarget>, input: &KeyInput) -> (r: Option<
    DesktopKeyboardShortcut,
>)
    requires
        hierarchy.wf(),
        resolvable(hierarchy@, deref_opt(focus)),
    ensures
        r == spec_shortcut(hierarchy@, deref_opt(focus), *input),
{
    if !(input.pressed && !input.repeat && input.command) {
        return None;
    }
    let focused_path = hierarchy.resolve_path(focus);
    if let Some(instance) = focused_path.instance() {
        if let Some(DesktopTarget::Launcher(launcher)) = hierarchy.parent(&DesktopTarget::Instance(instance)) {
            if let ShortcutKey::Character(c) = &input.key {
                let t = "t".to_owned();
                let w = "w".to_owned();
                proof {
                    reveal_strlit("t");
                    reveal_strlit("w");
                    assert(t@ =~= seq!['t']);
                    assert(w@ =~= seq!['w']);
                }
                if *c == t {
                    return Some(DesktopKeyboardShortcut::NewInstance(*launcher));
                }
                if *c == w {
                    return Some(DesktopKeyboardShortcut::CloseInstance(instance));
                }
            }
        }
    }
    let direction = match input.key {
        ShortcutKey::ArrowLeft => Direction::Left,
        ShortcutKey::ArrowRight => Direction::Right,
        ShortcutKey::ArrowUp => Direction::Up,
        ShortcutKey::ArrowDown => Direction::Down,
        _ => return None,
    };
    if input.ctrl {
        if let Direction::Up = direction {
            return Some(DesktopKeyboardShortcut::ZoomIn);
        }
        if let Direction::Down = direction {
            return Some(DesktopKeyboardShortcut::ZoomOut);
        }
    }
    Some(DesktopKeyboardShortcut::Navigate(direction))
}

impl DesktopKeyboardShortcut {
    /// The command a shortcut runs; a new instance gets a fresh id and is spawned.
    pub fn into_command(self) -> (r: DesktopCommand)
        ensures
            match self {
                DesktopKeyboardShortcut::NewInstance(l) => r matches DesktopCommand::StartInstance { launcher, spawn, .. } && launcher == l
                    && spawn,
                DesktopKeyboardShortcut::CloseInstance(i) => r == DesktopCommand::StopInstance(i),
                DesktopKeyboardShortcut::ZoomOut => r == DesktopCommand::Zoom(ZoomChange::Out),
                DesktopKeyboardShortcut::ZoomIn => r == DesktopCommand::Zoom(ZoomChange::In),
                DesktopKeyboardShortcut::Navigate(d) => r == DesktopCommand::Navigate(d),
            },
    {
        match self {
            DesktopKeyboardShortcut::NewInstance(launcher) => DesktopCommand::StartInstance {
                launcher,
                instance: InstanceId::new(),
                spawn: true,
            },
            DesktopKeyboardShortcut::CloseInstance(instance) => DesktopCommand::StopInstance(instance),
            DesktopKeyboardShortcut::ZoomOut => DesktopCommand::Zoom(ZoomChange::Out),
            DesktopKeyboardShortcut::ZoomIn => DesktopCommand::Zoom(ZoomChange::In),
            DesktopKeyboardShortcut::Navigate(direction) => DesktopCommand::Navigate(direction),
        }
    }
}

} // verus!
