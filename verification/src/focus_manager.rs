//! The focus manager organizes instances and views in a focus hierarchy.
//!
//! A view can only be focused if the containing instance is focused. But an instance can be
//! focused without a focused view, e.g. when the whole window gets unfocused.
use vstd::prelude::*;

use crate::ids::{InstanceId, ViewId};

verus! {

/// A view of an instance.
#[derive(Debug, Clone, Copy, PartialEq, Eq, Structural)]
pub struct ViewPath {
    pub instance: InstanceId,
    pub view: ViewId,
}

/// The focused instance and, optionally, its focused view.
#[derive(Debug, Clone, Copy, PartialEq, Eq, Structural)]
pub struct FocusPath {
    pub instance: InstanceId,
    pub view: Option<ViewId>,
}

impl From<ViewPath> for FocusPath {
    fn from(value: ViewPath) -> (p: FocusPath)
        ensures
            p == (FocusPath { instance: value.instance, view: Some(value.view) }),
    {
        FocusPath { instance: value.instance, view: Some(value.view) }
    }
}

impl vstd::std_specs::convert::FromSpecImpl<ViewPath> for FocusPath {
    open spec fn obeys_from_spec() -> bool {
        true
    }

    open spec fn from_spec(v: ViewPath) -> FocusPath {
        FocusPath { instance: v.instance, view: Some(v.view) }
    }
}

impl From<InstanceId> for FocusPath {
    fn from(value: InstanceId) -> (p: FocusPath)
        ensures
            p == (FocusPath { instance: value, view: None }),
    {
        FocusPath { instance: value, view: None }
    }
}

impl vstd::std_specs::convert::FromSpecImpl<InstanceId> for FocusPath {
    open spec fn obeys_from_spec() -> bool {
        true
    }

    open spec fn from_spec(v: InstanceId) -> FocusPath {
        FocusPath { instance: v, view: None }
    }
}

/// A path that gains or loses focus.
#[derive(Debug, Clone, Copy, PartialEq, Eq, Structural)]
pub enum FocusTransition {
    Enter(FocusPath),
    Exit(FocusPath),
}

/// The path of an instance alone.
pub open spec fn instance_path(instance: InstanceId) -> FocusPath {
    FocusPath { instance, view: None }
}

/// The transitions of unfocusing the view of `p`, and the path that remains.
pub open spec fn spec_unfocus_view_of(p: FocusPath) -> (FocusPath, Seq<FocusTransition>) {
    match p.view {
        Some(v) => (
            FocusPath { instance: p.instance, view: None },
            seq![FocusTransition::Exit(FocusPath { instance: p.instance, view: Some(v) })],
        ),
        None => (p, Seq::empty()),
    }
}

/// The transitions of moving the view focus of `p` to `new_view`, and the resulting path.
pub open spec fn spec_focus_view(p: FocusPath, new_view: Option<ViewId>) -> (FocusPath, Seq<FocusTransition>) {
    if p.view == new_view {
        (p, Seq::empty())
    } else {
        let (q, exits) = spec_unfocus_view_of(p);
        match new_view {
            Some(v) => (
                FocusPath { instance: p.instance, view: Some(v) },
                exits.push(FocusTransition::Enter(FocusPath { instance: p.instance, view: Some(v) })),
            ),
            None => (q, exits),
        }
    }
}

/// The transitions of unfocusing everything: the view first, then the instance.
pub open spec fn spec_unfocus(current: Option<FocusPath>) -> Seq<FocusTransition> {
    match current {
        Some(p) => spec_unfocus_view_of(p).1.push(FocusTransition::Exit(instance_path(p.instance))),
        None => Seq::empty(),
    }
}

/// The focus after `focus(target)`, and the transitions it returns: within the focused instance
/// only the view focus moves; else everything is unfocused, the instance entered and then its
/// view.
pub open spec fn spec_focus(current: Option<FocusPath>, target: FocusPath) -> (Option<FocusPath>, Seq<FocusTransition>) {
    match current {
        Some(p) if p.instance == target.instance => {
            let (q, t) = spec_focus_view(p, target.view);
            (Some(q), t)
        },
        _ => {
            let (q, t) = spec_focus_view(instance_path(target.instance), target.view);
            (Some(q), spec_unfocus(current).push(FocusTransition::Enter(instance_path(target.instance))) + t)
        },
    }
}

fn same_instance(a: InstanceId, b: InstanceId) -> (r: bool)
    ensures
        r == (a == b),
{
    a.0 == b.0
}

fn same_view(a: Option<ViewId>, b: Option<ViewId>) -> (r: bool)
    ensures
        r == (a == b),
{
    match (a, b) {
        (Some(x), Some(y)) => x.0 == y.0,
        (None, None) => true,
        _ => false,
    }
}

impl FocusPath {
    fn focus_view(&mut self, new_view: Option<ViewId>) -> (r: Vec<FocusTransition>)
        ensures
            (*final(self), r@) == spec_focus_view(*old(self), new_view),
    {
        if same_view(self.view, new_view) {
            return Vec::new();
        }
        let mut transitions = self.unfocus_view();
        if let Some(v) = new_view {
            self.view = Some(v);
            transitions.push(FocusTransition::Enter(FocusPath { instance: self.instance, view: Some(v) }));
        }
        transitions
    }

    fn unfocus_view(&mut self) -> (r: Vec<FocusTransition>)
        ensures
            (*final(self), r@) == spec_unfocus_view_of(*old(self)),
    {
        let mut transitions = Vec::new();
        if let Some(v) = self.view {
            self.view = None;
            transitions.push(FocusTransition::Exit(FocusPath { instance: self.instance, view: Some(v) }));
        }
        transitions
    }
}

/// Tracks which instance, and which of its views, has the focus. Initially nothing is focused.
#[derive(Debug)]
pub struct FocusManager {
    current: Option<FocusPath>,
}

impl View for FocusManager {
    type V = Option<FocusPath>;

    closed spec fn view(&self) -> Option<FocusPath> {
        self.current
    }
}

impl Default for FocusManager {
    fn default() -> (m: Self)
        ensures
            m@ is None,
    {
        FocusManager { current: None }
    }
}

impl FocusManager {
    pub fn new() -> (m: Self)
        ensures
            m@ is None,
    {
        FocusManager { current: None }
    }

    pub fn focused_instance(&self) -> (r: Option<InstanceId>)
        ensures
            r == match self@ {
                Some(p) => Some(p.instance),
                None => None,
            },
    {
        match self.current {
            Some(p) => Some(p.instance),
            None => None,
        }
    }

    pub fn focused_view(&self) -> (r: Option<ViewPath>)
        ensures
            r == match self@ {
                Some(p) => match p.view {
                    Some(v) => Some(ViewPath { instance: p.instance, view: v }),
                    None => None,
                },
                None => None,
            },
    {
        match self.current {
            Some(p) => match p.view {
                Some(v) => Some(ViewPath { instance: p.instance, view: v }),
                None => None,
            },
            None => None,
        }
    }

    pub fn focused(&self) -> (r: Option<FocusPath>)
        ensures
            r == self@,
    {
        self.current
    }

    /// Focus the instance, and optionally a view.
    pub fn focus(&mut self, focus_path: FocusPath) -> (r: Vec<FocusTransition>)
        ensures
            (final(self)@, r@) == spec_focus(old(self)@, focus_path),
    {
        if let Some(current) = self.current {
            if same_instance(current.instance, focus_path.instance) {
                let mut p = current;
                let transitions = p.focus_view(focus_path.view);
                self.current = Some(p);
                return transitions;
            }
        }
        let mut transitions = self.unfocus();
        let mut new_path = FocusPath { instance: focus_path.instance, view: None };
        transitions.push(FocusTransition::Enter(FocusPath { instance: focus_path.instance, view: None }));
        let view_transitions = new_path.focus_view(focus_path.view);
        let ghost before = transitions@;
        let mut k: usize = 0;
        while k < view_transitions.len()
            invariant
                k <= view_transitions@.len(),
                transitions@ =~= before + view_transitions@.take(k as int),
            decreases view_transitions@.len() - k,
        {
            transitions.push(view_transitions[k]);
            k += 1;
        }
        assert(view_transitions@.take(view_transitions@.len() as int) =~= view_transitions@);
        self.current = Some(new_path);
        transitions
    }

    /// Clear the focus of the view, so that the focus stays on the current instance.
    ///
    /// This is useful when the whole desktop application gets unfocused.
    pub fn unfocus_view(&mut self) -> (r: Vec<FocusTransition>)
        ensures
            (final(self)@, r@) == match old(self)@ {
                Some(p) => {
                    let (q, t) = spec_unfocus_view_of(p);
                    (Some(q), t)
                },
                None => (None, Seq::empty()),
            },
    {
        match self.current {
            Some(current) => {
                let mut p = current;
                let transitions = p.unfocus_view();
                self.current = Some(p);
                transitions
            },
            None => Vec::new(),
        }
    }

    /// Unfocus the view and the instance.
    pub fn unfocus(&mut self) -> (r: Vec<FocusTransition>)
        ensures
            final(self)@ is None,
            r@ == spec_unfocus(old(self)@),
    {
        let mut transitions = Vec::new();
        let current = match self.current {
            Some(p) => p,
            None => return transitions,
        };
        self.current = None;
        if let Some(v) = current.view {
            transitions.push(FocusTransition::Exit(FocusPath { instance: current.instance, view: Some(v) }));
        }
        transitions.push(FocusTransition::Exit(FocusPath { instance: current.instance, view: None }));
        transitions
    }
}

/// After `focus(target)`, `target` is focused, whatever was focused before.
pub proof fn law_focus_takes_target(current: Option<FocusPath>, target: FocusPath)
    ensures
        spec_focus(current, target).0 == Some(target),
{
}

/// Focusing what is focused already produces no transitions.
pub proof fn law_refocus_is_silent(current: Option<FocusPath>, target: FocusPath)
    ensures
        spec_focus(spec_focus(current, target).0, target).1.len() == 0,
{
}

/// A view is never focused without its instance: every entered view belongs to the instance that
/// ends up focused.
pub proof fn law_entered_views_belong_to_focus(current: Option<FocusPath>, target: FocusPath, i: int)
    requires
        0 <= i < spec_focus(current, target).1.len(),
        spec_focus(current, target).1[i] matches FocusTransition::Enter(p) && p.view is Some,
    ensures
        spec_focus(current, target).1[i] == FocusTransition::Enter(target),
{
}

/// Unfocusing after a focus exits exactly the view (if any) and then the instance of the target.
pub proof fn law_unfocus_after_focus(current: Option<FocusPath>, target: FocusPath)
    ensures
        spec_unfocus(spec_focus(current, target).0) == match target.view {
            Some(v) => seq![FocusTransition::Exit(target), FocusTransition::Exit(instance_path(target.instance))],
            None => seq![FocusTransition::Exit(instance_path(target.instance))],
        },
{
}

} // verus!
