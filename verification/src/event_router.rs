//! Decides which elements receive which events in which order, so that their view of the input
//! state stays consistent.
//!
//! The router is generic over `T`, the type of the targets. It works without any knowledge about
//! the relationships between the targets. It does not hold the events themselves: a `Send`
//! transition names the target that the event being processed goes to.
use vstd::prelude::*;

use crate::ids::NodeKey;

verus! {

/// One step of delivering input: the event being processed goes to a target, or a focus moves.
#[derive(Debug, Clone, Copy, PartialEq, Eq)]
pub enum EventTransition<T> {
    /// Deliver the event being processed (for a cursor move: at the hit position) to the target.
    Send(T),
    ChangePointerFocus { from: Option<T>, to: Option<T> },
    ChangeKeyboardFocus { from: Option<T>, to: Option<T> },
}

/// The transitions produced while processing one event, in order.
#[derive(Debug)]
pub struct EventTransitions<T> {
    transitions: Vec<EventTransition<T>>,
}

impl<T> View for EventTransitions<T> {
    type V = Seq<EventTransition<T>>;

    closed spec fn view(&self) -> Seq<EventTransition<T>> {
        self.transitions@
    }
}

/// The targets whose keyboard focus changes in `s`: for each change, the target losing the focus
/// and then the one gaining it.
pub open spec fn keyboard_focus_targets<T>(s: Seq<EventTransition<T>>) -> Seq<T>
    decreases s.len(),
{
    if s.len() == 0 {
        Seq::empty()
    } else {
        let prev = keyboard_focus_targets(s.drop_last());
        match s.last() {
            EventTransition::ChangeKeyboardFocus { from, to } => {
                let with_from = match from {
                    Some(f) => prev.push(f),
                    None => prev,
                };
                match to {
                    Some(t) => with_from.push(t),
                    None => with_from,
                }
            },
            _ => prev,
        }
    }
}

impl<T: NodeKey> Default for EventTransitions<T> {
    fn default() -> (r: Self)
        ensures
            r@ == Seq::<EventTransition<T>>::empty(),
    {
        EventTransitions { transitions: Vec::new() }
    }
}

impl<T: NodeKey> EventTransitions<T> {
    pub fn as_slice(&self) -> (r: &[EventTransition<T>])
        ensures
            r@ == self@,
    {
        self.transitions.as_slice()
    }

    pub fn into_vec(self) -> (r: Vec<EventTransition<T>>)
        ensures
            r@ == self@,
    {
        self.transitions
    }

    /// The targets that lose or gain the keyboard focus in these transitions.
    pub fn targets_affected_by_keyboard_focus_change(&self) -> (r: Vec<T>)
        ensures
            r@ == keyboard_focus_targets(self@),
    {
        let mut touched: Vec<T> = Vec::new();
        let mut i: usize = 0;
        while i < self.transitions.len()
            invariant
                i <= self@.len(),
                touched@ == keyboard_focus_targets(self@.take(i as int)),
            decreases self@.len() - i,
        {
            proof {
                assert(self@.take(i + 1).drop_last() =~= self@.take(i as int));
            }
            if let EventTransition::ChangeKeyboardFocus { from, to } = self.transitions[i] {
                if let Some(f) = from {
                    touched.push(f);
                }
                if let Some(t) = to {
                    touched.push(t);
                }
            }
            i += 1;
        }
        assert(self@.take(self@.len() as int) =~= self@);
        touched
    }

    fn send(&mut self, target: T)
        ensures
            final(self)@ == old(self)@.push(EventTransition::Send(target)),
    {
        self.transitions.push(EventTransition::Send(target));
    }

    /// Append the transitions of `other`, in their order.
    pub fn append(&mut self, other: EventTransitions<T>)
        ensures
            final(self)@ == old(self)@ + other@,
    {
        let mut more = other.transitions;
        self.transitions.append(&mut more);
    }

    /// Append a transition.
    pub fn push(&mut self, transition: EventTransition<T>)
        ensures
            final(self)@ == old(self)@.push(transition),
    {
        self.transitions.push(transition);
    }
}

/// Where a focus change the router suggests goes, and whether the event being processed is
/// forwarded to it.
#[derive(Debug, Clone, Copy, PartialEq, Eq)]
pub struct NavigationTarget<T> {
    pub target: T,
    pub forward_event: bool,
}

/// What processing an event leads to: transitions to deliver, or a suggested keyboard focus
/// (`None`: remove the keyboard focus).
#[derive(Debug)]
pub enum ProcessOutcome<T> {
    Transitions(EventTransitions<T>),
    Focus(Option<NavigationTarget<T>>),
}

/// An input event as the router distinguishes it.
#[derive(Debug, Clone, Copy, PartialEq, Eq)]
pub enum RouterEvent<T> {
    /// The window gained (`true`) or lost (`false`) the focus.
    Focused(bool),
    /// The cursor moved. With no button pressed, `hit` is the topmost target under the cursor;
    /// with a button pressed, it is the previous pointer focus when the cursor still hits it.
    CursorMoved { any_pressed: bool, hit: Option<T> },
    /// A mouse button was pressed.
    MousePressed,
    /// Another mouse button event or a mouse wheel event.
    PointerInput,
    /// Keyboard or input method input.
    KeyboardInput,
    /// The keyboard modifiers changed.
    ModifiersChanged,
    /// An event no target receives.
    Ignored,
}

/// Why the router refused a removal: the removed target is still referenced.
#[derive(Debug, Clone, Copy, PartialEq, Eq, Structural)]
pub enum RouterError {
    /// The removed target has the keyboard focus.
    KeyboardFocus,
    /// The removed target has the pointer focus.
    PointerFocus,
    /// The removed target is remembered as the focus before the window lost focus.
    OuterFocus,
    /// A pointer focus is set, but no pointer position was ever seen.
    NoPointerPosition,
}

/// The window's focus, and while the window is unfocused, what had the keyboard focus before.
#[derive(Debug, Clone, Copy, PartialEq, Eq)]
pub enum OuterFocusState<T> {
    Unfocused { focused_previously: Option<T> },
    Focused,
}

/// The abstract state of a router.
pub struct RouterView<T> {
    pub pointer_focus: Option<T>,
    pub keyboard_focus: Option<T>,
    pub outer_focus: OuterFocusState<T>,
}

/// The state and transitions after setting the keyboard focus to `new`.
pub open spec fn spec_set_keyboard_focus<T>(s: RouterView<T>, new: Option<T>) -> (RouterView<T>, Seq<EventTransition<T>>) {
    if s.keyboard_focus == new {
        (s, Seq::empty())
    } else {
        (
            RouterView { keyboard_focus: new, ..s },
            seq![EventTransition::ChangeKeyboardFocus { from: s.keyboard_focus, to: new }],
        )
    }
}

/// The state and transitions after setting the pointer focus to `new`.
pub open spec fn spec_set_pointer_focus<T>(s: RouterView<T>, new: Option<T>) -> (RouterView<T>, Seq<EventTransition<T>>) {
    if s.pointer_focus == new {
        (s, Seq::empty())
    } else {
        (
            RouterView { pointer_focus: new, ..s },
            seq![EventTransition::ChangePointerFocus { from: s.pointer_focus, to: new }],
        )
    }
}

/// The state after a window focus change and the keyboard focus it suggests: `None` for a
/// redundant change, `Some(None)` to clear the keyboard focus, `Some(Some(t))` to focus `t`.
pub open spec fn spec_set_outer_focus<T>(s: RouterView<T>, focused: bool) -> (RouterView<T>, Option<Option<T>>) {
    match (s.outer_focus, focused) {
        (OuterFocusState::Unfocused { focused_previously }, true) => (
            RouterView { outer_focus: OuterFocusState::Focused, ..s },
            Some(if s.keyboard_focus is None { focused_previously } else { None }),
        ),
        (OuterFocusState::Focused, false) => (
            RouterView { outer_focus: OuterFocusState::Unfocused { focused_previously: s.keyboard_focus }, ..s },
            Some(None),
        ),
        _ => (s, None),
    }
}

/// The outcome of processing `event` as the abstract value `(state, focus suggestion,
/// transitions)`: a suggestion `Some(f)` stands for `ProcessOutcome::Focus(f)`, `None` for
/// `ProcessOutcome::Transitions` with the transitions.
pub open spec fn spec_process<T>(s: RouterView<T>, event: RouterEvent<T>) -> (
    RouterView<T>,
    Option<Option<NavigationTarget<T>>>,
    Seq<EventTransition<T>>,
) {
    match event {
        RouterEvent::Focused(focused) => {
            let (s1, suggestion) = spec_set_outer_focus(s, focused);
            match suggestion {
                Some(target) => (
                    s1,
                    Some(
                        match target {
                            Some(t) => Some(NavigationTarget { target: t, forward_event: false }),
                            None => None,
                        },
                    ),
                    Seq::empty(),
                ),
                None => (s1, None, Seq::empty()),
            }
        },
        RouterEvent::CursorMoved { any_pressed, hit } => {
            let new_pointer = if !any_pressed {
                hit
            } else if hit is Some {
                s.pointer_focus
            } else {
                None
            };
            let (s1, t) = spec_set_pointer_focus(s, new_pointer);
            let sends = if hit is Some && s1.pointer_focus is Some {
                seq![EventTransition::Send(s1.pointer_focus->0)]
            } else {
                Seq::empty()
            };
            (s1, None, t + sends)
        },
        RouterEvent::MousePressed => match s.pointer_focus {
            Some(p) => (s, Some(Some(NavigationTarget { target: p, forward_event: true })), Seq::empty()),
            None => if s.keyboard_focus is Some {
                (s, Some(None), Seq::empty())
            } else {
                (s, None, Seq::empty())
            },
        },
        RouterEvent::PointerInput => match s.pointer_focus {
            Some(p) => (s, None, seq![EventTransition::Send(p)]),
            None => (s, None, Seq::empty()),
        },
        RouterEvent::KeyboardInput => match s.keyboard_focus {
            Some(k) => (s, None, seq![EventTransition::Send(k)]),
            None => (s, None, Seq::empty()),
        },
        RouterEvent::ModifiersChanged => {
            let to_keyboard = match s.keyboard_focus {
                Some(k) => seq![EventTransition::Send(k)],
                None => Seq::empty(),
            };
            let to_pointer = match s.pointer_focus {
                Some(p) => if s.pointer_focus != s.keyboard_focus {
                    seq![EventTransition::Send(p)]
                } else {
                    Seq::empty()
                },
                None => Seq::empty(),
            };
            (s, None, to_keyboard + to_pointer)
        },
        RouterEvent::Ignored => (s, None, Seq::empty()),
    }
}

/// Why a removal of `target` is refused: the router still refers to it, as the keyboard focus,
/// the pointer focus, or the focus remembered while the window is unfocused.
pub open spec fn removal_refusal<T>(s: RouterView<T>, target: T) -> Option<RouterError> {
    if s.keyboard_focus == Some(target) {
        Some(RouterError::KeyboardFocus)
    } else if s.pointer_focus == Some(target) {
        Some(RouterError::PointerFocus)
    } else if s.outer_focus == (OuterFocusState::Unfocused { focused_previously: Some(target) }) {
        Some(RouterError::OuterFocus)
    } else {
        None
    }
}

fn same_opt<T: NodeKey>(a: &Option<T>, b: &Option<T>) -> (r: bool)
    ensures
        r == (*a == *b),
{
    match (a, b) {
        (Some(x), Some(y)) => x.same(y),
        (None, None) => true,
        _ => false,
    }
}

/// Tracks the pointer focus, the keyboard focus and the window's focus.
#[derive(Debug)]
pub struct EventRouter<T> {
    /// The target recently touched by the cursor. While a button is pressed, it stays.
    pointer_focus: Option<T>,
    /// The target keyboard events are delivered to.
    keyboard_focus: Option<T>,
    /// Whether the window has the focus, and what was focused before it lost it.
    outer_focus: OuterFocusState<T>,
}

impl<T> View for EventRouter<T> {
    type V = RouterView<T>;

    closed spec fn view(&self) -> RouterView<T> {
        RouterView {
            pointer_focus: self.pointer_focus,
            keyboard_focus: self.keyboard_focus,
            outer_focus: self.outer_focus,
        }
    }
}

impl<T: NodeKey> Default for EventRouter<T> {
    fn default() -> (r: Self)
        ensures
            r@ == (RouterView::<T> { pointer_focus: None, keyboard_focus: None, outer_focus: OuterFocusState::Focused }),
    {
        EventRouter::new()
    }
}

impl<T: NodeKey> EventRouter<T> {
    /// A router that assumes the window is focused but nothing in it.
    pub fn new() -> (r: Self)
        ensures
            r@ == (RouterView::<T> { pointer_focus: None, keyboard_focus: None, outer_focus: OuterFocusState::Focused }),
    {
        EventRouter { pointer_focus: None, keyboard_focus: None, outer_focus: OuterFocusState::Focused }
    }

    /// Check that a removed target is no longer referenced.
    pub fn notify_removed(&self, target: &T) -> (r: Result<(), RouterError>)
        ensures
            r == match removal_refusal(self@, *target) {
                Some(e) => Err(e),
                None => Ok(()),
            },
    {
        let t = Some(*target);
        if same_opt(&self.keyboard_focus, &t) {
            return Err(RouterError::KeyboardFocus);
        }
        if same_opt(&self.pointer_focus, &t) {
            return Err(RouterError::PointerFocus);
        }
        if let OuterFocusState::Unfocused { focused_previously } = &self.outer_focus {
            if same_opt(focused_previously, &t) {
                return Err(RouterError::OuterFocus);
            }
        }
        Ok(())
    }

    pub fn focused(&self) -> (r: Option<&T>)
        ensures
            match r {
                Some(t) => self@.keyboard_focus == Some(*t),
                None => self@.keyboard_focus is None,
            },
    {
        self.keyboard_focus.as_ref()
    }

    pub fn pointer_focus(&self) -> (r: Option<&T>)
        ensures
            match r {
                Some(t) => self@.pointer_focus == Some(*t),
                None => self@.pointer_focus is None,
            },
    {
        self.pointer_focus.as_ref()
    }

    /// Change the keyboard focus to the given target.
    pub fn focus(&mut self, focus: Option<&T>) -> (r: EventTransitions<T>)
        ensures
            (final(self)@, r@) == spec_set_keyboard_focus(
                old(self)@,
                match focus {
                    Some(t) => Some(*t),
                    None => None,
                },
            ),
    {
        let mut transitions = EventTransitions::default();
        let new = match focus {
            Some(t) => Some(*t),
            None => None,
        };
        self.set_keyboard_focus(new, &mut transitions);
        transitions
    }

    /// Process an input event.
    pub fn process(&mut self, event: RouterEvent<T>) -> (r: ProcessOutcome<T>)
        ensures
            ({
                let (s, suggestion, transitions) = spec_process(old(self)@, event);
                &&& final(self)@ == s
                &&& match suggestion {
                    Some(f) => r == ProcessOutcome::Focus(f),
                    None => r matches ProcessOutcome::Transitions(t) && t@ == transitions,
                }
            }),
    {
        let mut transitions = EventTransitions::default();
        match event {
            RouterEvent::Focused(focused) => {
                if let Some(target) = self.set_outer_focus(focused) {
                    return ProcessOutcome::Focus(
                        match target {
                            Some(t) => Some(NavigationTarget { target: t, forward_event: false }),
                            None => None,
                        },
                    );
                }
            },
            RouterEvent::CursorMoved { any_pressed, hit } => {
                if !any_pressed {
                    self.set_pointer_focus(hit, &mut transitions);
                } else if hit.is_none() {
                    self.set_pointer_focus(None, &mut transitions);
                }
                if hit.is_some() {
                    if let Some(p) = self.pointer_focus {
                        transitions.send(p);
                    }
                }
                proof {
                    let ghost spec = spec_process(old(self)@, event).2;
                    assert(transitions@ =~= spec);
                }
            },
            RouterEvent::MousePressed => {
                if let Some(pointer_focus) = self.pointer_focus {
                    return ProcessOutcome::Focus(Some(NavigationTarget { target: pointer_focus, forward_event: true }));
                } else if self.keyboard_focus.is_some() {
                    return ProcessOutcome::Focus(None);
                }
            },
            RouterEvent::PointerInput => {
                if let Some(pointer_focus) = self.pointer_focus {
                    transitions.send(pointer_focus);
                }
            },
            RouterEvent::KeyboardInput => {
                if let Some(keyboard_focus) = self.keyboard_focus {
                    transitions.send(keyboard_focus);
                }
            },
            RouterEvent::ModifiersChanged => {
                if let Some(keyboard_focus) = self.keyboard_focus {
                    transitions.send(keyboard_focus);
                }
                if let Some(pointer_focus) = self.pointer_focus {
                    if !same_opt(&self.pointer_focus, &self.keyboard_focus) {
                        transitions.send(pointer_focus);
                    }
                }
                proof {
                    let ghost spec = spec_process(old(self)@, event).2;
                    assert(transitions@ =~= spec);
                }
            },
            RouterEvent::Ignored => {},
        }
        ProcessOutcome::Transitions(transitions)
    }

    /// Test the pointer focus again: `hit` is the hit test at the most recent pointer position,
    /// `None` when no pointer position was ever seen.
    pub fn reset_pointer_focus(&mut self, hit: Option<Option<T>>) -> (r: Result<EventTransitions<T>, RouterError>)
        ensures
            match hit {
                Some(target) => {
                    let (s, t) = spec_set_pointer_focus(old(self)@, target);
                    &&& final(self)@ == s
                    &&& (r matches Ok(transitions) && transitions@ == t)
                },
                None => final(self)@ == old(self)@ && if old(self)@.pointer_focus is None {
                    (r matches Ok(transitions) && transitions@.len() == 0)
                } else {
                    r == Err::<EventTransitions<T>, RouterError>(RouterError::NoPointerPosition)
                },
            },
    {
        let target = match hit {
            Some(target) => target,
            None => {
                if self.pointer_focus.is_none() {
                    return Ok(EventTransitions::default());
                }
                return Err(RouterError::NoPointerPosition);
            },
        };
        let mut transitions = EventTransitions::default();
        self.set_pointer_focus(target, &mut transitions);
        Ok(transitions)
    }

    /// Remove the pointer focus.
    pub fn unfocus_pointer(&mut self) -> (r: EventTransitions<T>)
        ensures
            (final(self)@, r@) == spec_set_pointer_focus(old(self)@, None),
    {
        let mut transitions = EventTransitions::default();
        self.set_pointer_focus(None, &mut transitions);
        transitions
    }

    /// Update the window's focus state; returns the keyboard focus it suggests.
    pub fn set_outer_focus(&mut self, focused: bool) -> (r: Option<Option<T>>)
        ensures
            (final(self)@, r) == spec_set_outer_focus(old(self)@, focused),
    {
        match (self.outer_focus, focused) {
            (OuterFocusState::Unfocused { focused_previously }, true) => {
                let focus_target = if self.keyboard_focus.is_none() {
                    focused_previously
                } else {
                    None
                };
                self.outer_focus = OuterFocusState::Focused;
                Some(focus_target)
            },
            (OuterFocusState::Focused, false) => {
                self.outer_focus = OuterFocusState::Unfocused { focused_previously: self.keyboard_focus };
                Some(None)
            },
            _ => None,
        }
    }

    fn set_keyboard_focus(&mut self, new: Option<T>, transitions: &mut EventTransitions<T>)
        ensures
            final(self)@ == spec_set_keyboard_focus(old(self)@, new).0,
            final(transitions)@ == old(transitions)@ + spec_set_keyboard_focus(old(self)@, new).1,
    {
        if same_opt(&self.keyboard_focus, &new) {
            assert(old(transitions)@ + Seq::<EventTransition<T>>::empty() =~= old(transitions)@);
            return;
        }
        transitions.push(EventTransition::ChangeKeyboardFocus { from: self.keyboard_focus, to: new });
        self.keyboard_focus = new;
        assert(final(transitions)@ =~= old(transitions)@ + spec_set_keyboard_focus(old(self)@, new).1);
    }

    fn set_pointer_focus(&mut self, new: Option<T>, transitions: &mut EventTransitions<T>)
        ensures
            final(self)@ == spec_set_pointer_focus(old(self)@, new).0,
            final(transitions)@ == old(transitions)@ + spec_set_pointer_focus(old(self)@, new).1,
    {
        if same_opt(&self.pointer_focus, &new) {
            assert(old(transitions)@ + Seq::<EventTransition<T>>::empty() =~= old(transitions)@);
            return;
        }
        transitions.push(EventTransition::ChangePointerFocus { from: self.pointer_focus, to: new });
        self.pointer_focus = new;
        assert(final(transitions)@ =~= old(transitions)@ + spec_set_pointer_focus(old(self)@, new).1);
    }
}

/// Focusing what has the keyboard focus already changes nothing and reports nothing.
pub proof fn law_refocus_is_silent<T>(s: RouterView<T>)
    ensures
        spec_set_keyboard_focus(s, s.keyboard_focus) == (s, Seq::<EventTransition<T>>::empty()),
{
}

/// When the window loses the focus and regains it without a keyboard focus in between, the router
/// suggests the target that had the keyboard focus before.
pub proof fn law_window_refocus_restores_focus<T>(s: RouterView<T>)
    requires
        s.outer_focus == OuterFocusState::<T>::Focused,
    ensures
        ({
            let (unfocused, cleared) = spec_set_outer_focus(s, false);
            let (emptied, _) = spec_set_keyboard_focus(unfocused, None);
            let (refocused, restored) = spec_set_outer_focus(emptied, true);
            &&& cleared == Some(None::<T>)
            &&& restored == Some(s.keyboard_focus)
            &&& refocused.outer_focus == OuterFocusState::<T>::Focused
        }),
{
}

/// Every keyboard focus change names the focus it leaves and differs from it.
pub proof fn law_keyboard_changes_are_real<T>(s: RouterView<T>, new: Option<T>)
    ensures
        spec_set_keyboard_focus(s, new).1.len() == 0 <==> s.keyboard_focus == new,
        spec_set_keyboard_focus(s, new).0.keyboard_focus == new,
{
}

} // verus!
