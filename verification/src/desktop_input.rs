//! What the desktop makes of input: changes from the router's outcome, the pointer feedback
//! mode, and the bookkeeping that follows the keyboard focus.
use vstd::prelude::*;

use crate::change::{push_change, spec_set_focus, views, ChangeView, DesktopChange};
use crate::desktop_system::KeyboardFocusReason;
use crate::event_router::{
    spec_set_keyboard_focus, spec_set_pointer_focus, EventRouter, EventTransition, EventTransitions, ProcessOutcome,
};
use crate::focus_path::{parent_of, resolvable, spec_path_of};
use crate::hierarchy_focus::{deref_opt, last_instance};
use crate::ids::{DesktopTarget, LaunchProfileId};
use crate::planning::Aggregates;
use crate::projects::LauncherState;
use crate::topology::DesktopTopology;

verus! {

/// The changes an input event leads to: deliver the router's transitions, or apply the focus
/// change it suggests (and deliver the event to the new focus when the suggestion says so).
pub open spec fn spec_input_changes(outcome: ProcessOutcome<DesktopTarget>) -> Seq<ChangeView> {
    match outcome {
        ProcessOutcome::Transitions(t) => seq![ChangeView::ForwardEvents(t@)],
        ProcessOutcome::Focus(Some(target)) => {
            let focus = seq![
                ChangeView::SetFocus { target: Some(target.target), reason: KeyboardFocusReason::InputTransition },
            ];
            if target.forward_event {
                focus.push(ChangeView::ForwardEvents(seq![EventTransition::Send(target.target)]))
            } else {
                focus
            }
        },
        ProcessOutcome::Focus(None) => seq![
            ChangeView::SetFocus { target: None, reason: KeyboardFocusReason::InputTransition },
        ],
    }
}

/// Convert the router's outcome for an input event into changes.
pub fn input_changes(outcome: ProcessOutcome<DesktopTarget>) -> (r: Vec<DesktopChange>)
    ensures
        views(r@) == spec_input_changes(outcome),
{
    let ghost spec = spec_input_changes(outcome);
    let mut changes: Vec<DesktopChange> = Vec::new();
    proof {
        assert(views(changes@) =~= Seq::<ChangeView>::empty());
    }
    match outcome {
        ProcessOutcome::Transitions(transitions) => {
            push_change(&mut changes, DesktopChange::ForwardEvents(transitions));
        },
        ProcessOutcome::Focus(Some(target)) => {
            push_change(
                &mut changes,
                DesktopChange::SetFocus { target: Some(target.target), reason: KeyboardFocusReason::InputTransition },
            );
            if target.forward_event {
                let mut send = EventTransitions::default();
                send.push(EventTransition::Send(target.target));
                assert(send@ =~= seq![EventTransition::Send(target.target)]);
                push_change(&mut changes, DesktopChange::ForwardEvents(send));
            }
        },
        ProcessOutcome::Focus(None) => {
            push_change(&mut changes, DesktopChange::SetFocus { target: None, reason: KeyboardFocusReason::InputTransition });
        },
    }
    assert(views(changes@) =~= spec);
    changes
}

/// An input event as the pointer feedback mode distinguishes it.
#[derive(Debug, Clone, Copy, PartialEq, Eq, Structural)]
pub enum FeedbackEvent {
    /// A key was pressed (not repeated).
    KeyPressed,
    /// A mouse button or wheel event.
    PointerInput,
    /// The cursor moved; `deliberate` when it moved far enough in short enough time.
    CursorMoved { deliberate: bool },
    /// Any other event.
    Other,
}

/// Whether pointer-driven feedback is on after an event: a key press turns it off; a mouse
/// button or wheel event, or a deliberate cursor movement, turns it back on.
pub open spec fn spec_pointer_feedback(enabled: bool, event: FeedbackEvent) -> bool {
    match (enabled, event) {
        (true, FeedbackEvent::KeyPressed) => false,
        (false, FeedbackEvent::PointerInput) => true,
        (false, FeedbackEvent::CursorMoved { deliberate: true }) => true,
        _ => enabled,
    }
}

/// Update the pointer feedback mode by an input event.
pub fn update_pointer_feedback(enabled: bool, event: FeedbackEvent) -> (r: bool)
    ensures
        r == spec_pointer_feedback(enabled, event),
{
    match (enabled, event) {
        (true, FeedbackEvent::KeyPressed) => false,
        (false, FeedbackEvent::PointerInput) => true,
        (false, FeedbackEvent::CursorMoved { deliberate: true }) => true,
        _ => enabled,
    }
}

/// Remove the pointer focus when `target` is on its path (a target about to be removed).
pub fn unfocus_pointer_if_path_contains(
    router: &mut EventRouter<DesktopTarget>,
    hierarchy: &DesktopTopology,
    target: &DesktopTarget,
) -> (r: EventTransitions<DesktopTarget>)
    requires
        hierarchy.wf(),
        resolvable(hierarchy@, old(router)@.pointer_focus),
    ensures
        if spec_path_of(hierarchy@, old(router)@.pointer_focus).contains(*target) {
            (final(router)@, r@) == spec_set_pointer_focus(old(router)@, None)
        } else {
            final(router)@ == old(router)@ && r@.len() == 0
        },
{
    let contains = {
        let pointer = router.pointer_focus();
        hierarchy.path_contains_target(pointer, target)
    };
    if contains {
        router.unfocus_pointer()
    } else {
        EventTransitions::default()
    }
}

/// Move the keyboard focus to the parent of `target` when `target` is on its path (a target about
/// to be removed).
pub fn refocus_to_parent_if_path_contains(
    router: &mut EventRouter<DesktopTarget>,
    hierarchy: &DesktopTopology,
    target: &DesktopTarget,
) -> (r: EventTransitions<DesktopTarget>)
    requires
        hierarchy.wf(),
        resolvable(hierarchy@, old(router)@.keyboard_focus),
    ensures
        if spec_path_of(hierarchy@, old(router)@.keyboard_focus).contains(*target) {
            (final(router)@, r@) == spec_set_keyboard_focus(old(router)@, parent_of(hierarchy@, *target))
        } else {
            final(router)@ == old(router)@ && r@.len() == 0
        },
{
    let contains = {
        let focused = router.focused();
        hierarchy.path_contains_target(focused, target)
    };
    if contains {
        let parent = match hierarchy.parent(target) {
            Some(p) => Some(*p),
            None => None,
        };
        router.focus(parent.as_ref())
    } else {
        EventTransitions::default()
    }
}

impl Aggregates {
    /// Make the focused instance the focus anchor of its launcher.
    pub fn sync_focused_launcher_anchor(&mut self, focus: Option<&DesktopTarget>)
        requires
            old(self).wf(),
            resolvable(old(self).hierarchy@, deref_opt(focus)),
            match last_instance(spec_path_of(old(self).hierarchy@, deref_opt(focus))) {
                Some(i) => match parent_of(old(self).hierarchy@, DesktopTarget::Instance(i)) {
                    Some(DesktopTarget::Launcher(l)) => old(self).launchers@.contains_key(l),
                    _ => true,
                },
                None => true,
            },
        ensures
            final(self).wf(),
            final(self).hierarchy@ == old(self).hierarchy@,
            final(self).matrix_positions@ == old(self).matrix_positions@,
            final(self).projects@ == old(self).projects@,
            final(self).startup_profile == old(self).startup_profile,
            final(self).launchers@ == match last_instance(spec_path_of(old(self).hierarchy@, deref_opt(focus))) {
                Some(i) => match parent_of(old(self).hierarchy@, DesktopTarget::Instance(i)) {
                    Some(DesktopTarget::Launcher(l)) => old(self).launchers@.insert(
                        l,
                        LauncherState { focus_anchor_instance: Some(i), ..old(self).launchers@[l] },
                    ),
                    _ => old(self).launchers@,
                },
                None => old(self).launchers@,
            },
    {
        let instance = match self.hierarchy.resolve_path(focus).instance() {
            Some(i) => i,
            None => return,
        };
        let launcher: LaunchProfileId = match self.hierarchy.parent(&DesktopTarget::Instance(instance)) {
            Some(DesktopTarget::Launcher(l)) => *l,
            _ => return,
        };
        match self.launchers.get_mut(&launcher) {
            Some(state) => {
                state.focus_anchor_instance = Some(instance);
            },
            None => {},
        }
    }
}

} // verus!
