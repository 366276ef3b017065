//! The state the desktop's changes apply to, and what applying one change does to it.
//!
//! Applying a change decides; the work outside (spawning, presenting, delivering events to
//! instances) is handed back to the caller as a `ChangeWork`.
use vstd::prelude::*;

use crate::apply::{
    apply_topology_change, project_change_applicable, project_change_applied, project_change_result,
    topology_after, topology_change_applicable, topology_result, ApplyError,
};
use crate::change::{set_focus, spec_set_focus, views, DesktopChange, TopologyChange};
use crate::change_surface::ChangeOutput;
use crate::desktop_input::{refocus_to_parent_if_path_contains, unfocus_pointer_if_path_contains};
use crate::desktop_system::{FocusDepth, KeyboardFocusReason};
use crate::event_router::{
    spec_set_keyboard_focus, spec_set_pointer_focus, EventRouter, EventTransition, EventTransitions, RouterView,
};
use crate::focus_path::{
    chain_finite, lemma_no_return, lemma_on_path, lemma_up_add, parent_of, resolvable, spec_path_of,
    spec_resolve_path,
};
use crate::ids::{DesktopTarget, InstanceId, LaunchProfileId, ViewId};
use crate::navigation::NavigationControl;
use crate::ordered_hierarchy::HierarchyView;
use crate::planning::Aggregates;
use crate::topology::{desktop_shape, first_non_view, launcher_defined, project_defined, target_launcher, target_project};
use crate::focus_path::up;
use vstd::string::StringExecFns;

verus! {

/// Work outside the library that applying a change asks for.
#[derive(Debug)]
pub enum ChangeWork {
    /// No work outside.
    Nothing,
    /// Spawn the instance; it starts with the panel size.
    Spawn { instance: InstanceId, width: u32, height: u32 },
    /// Ask the instance to shut down.
    Shutdown(InstanceId),
    Present { launcher: LaunchProfileId, instance: InstanceId },
    Hide { launcher: LaunchProfileId, instance: InstanceId },
    /// Tell every instance's primary view the new panel size.
    ResizeInstances { width: u32, height: u32 },
    /// Deliver these transitions to the instances.
    Forward(EventTransitions<DesktopTarget>),
}

/// The state the desktop's changes apply to.
pub struct DesktopState {
    pub aggregates: Aggregates,
    pub event_router: EventRouter<DesktopTarget>,
    pub navigation_control: NavigationControl,
    pub focus_depth: FocusDepth,
    /// The size new instances are given.
    pub panel_width: u32,
    pub panel_height: u32,
}

/// The target of an optional target, as a set.
pub open spec fn opt_set(o: Option<DesktopTarget>) -> Set<DesktopTarget> {
    match o {
        Some(t) => set![t],
        None => Set::empty(),
    }
}

/// `b` holds the same aggregates as `a`.
pub open spec fn same_aggregates(a: &Aggregates, b: &Aggregates) -> bool {
    &&& b.hierarchy@ == a.hierarchy@
    &&& b.matrix_positions@ == a.matrix_positions@
    &&& b.projects@ == a.projects@
    &&& b.launchers@ == a.launchers@
    &&& b.startup_profile == a.startup_profile
}

/// `r` is a successful output with nothing to apply further and exactly `measure` to measure
/// again.
pub open spec fn measures_only(r: Result<ChangeOutput, ApplyError>, measure: Set<DesktopTarget>) -> bool {
    &&& r matches Ok(out)
    &&& out.wf()
    &&& out.changes@.len() == 0
    &&& out.surface.invalid_set() == measure
    &&& !out.surface.window_size_changed
}

/// The router, and the transitions to deliver, once it lets go of `target`: the pointer focus is
/// removed when `target` is on its path, and the keyboard focus moves to the parent of `target`
/// when `target` is on its path.
pub open spec fn released(router: RouterView<DesktopTarget>, m: HierarchyView<DesktopTarget>, target: DesktopTarget) -> (
    RouterView<DesktopTarget>,
    Seq<EventTransition<DesktopTarget>>,
) {
    let (r1, t1) = if spec_path_of(m, router.pointer_focus).contains(target) {
        spec_set_pointer_focus(router, None)
    } else {
        (router, Seq::empty())
    };
    let (r2, t2) = if spec_path_of(m, r1.keyboard_focus).contains(target) {
        spec_set_keyboard_focus(r1, parent_of(m, target))
    } else {
        (r1, Seq::empty())
    };
    (r2, t1 + t2)
}

/// The router a topology change is applied with, and the transitions that brought it there.
pub open spec fn router_for(router: RouterView<DesktopTarget>, m: HierarchyView<DesktopTarget>, change: TopologyChange) -> (
    RouterView<DesktopTarget>,
    Seq<EventTransition<DesktopTarget>>,
) {
    match change {
        TopologyChange::Remove(t) => released(router, m, t),
        _ => (router, Seq::empty()),
    }
}

/// The change can be applied without a panic.
pub open spec fn change_applicable(s: &DesktopState, change: DesktopChange) -> bool {
    let m = s.aggregates.hierarchy@;
    match change {
        DesktopChange::Project(pc) => project_change_applicable(&s.aggregates, pc),
        DesktopChange::Topology(tc) => {
            &&& resolvable(m, s.event_router@.pointer_focus)
            &&& resolvable(m, s.event_router@.keyboard_focus)
            &&& topology_change_applicable(router_for(s.event_router@, m, tc).0, m, tc)
        },
        _ => true,
    }
}

/// The name a window title shows after the application's title: the focused launcher's, then
/// the focused project's, each after a dash.
pub open spec fn title_suffix(name: Option<Seq<char>>) -> Seq<char> {
    match name {
        Some(n) => seq![' ', '-', ' '] + n,
        None => Seq::empty(),
    }
}

/// The window title: the title the focused view reported (the application's name when it
/// reported none), then the names of the focused launcher and project.
pub open spec fn spec_window_title(
    view_title: Seq<char>,
    primary_application: Seq<char>,
    launcher_name: Option<Seq<char>>,
    project_name: Option<Seq<char>>,
) -> Seq<char> {
    (if view_title.len() == 0 {
        primary_application
    } else {
        view_title
    }) + title_suffix(launcher_name) + title_suffix(project_name)
}

/// The names of the launcher and the project that `s`'s keyboard focus belongs to.
pub open spec fn focused_names(s: &DesktopState) -> (Option<Seq<char>>, Option<Seq<char>>) {
    let m = s.aggregates.hierarchy@;
    match s.event_router@.keyboard_focus {
        Some(t) => (
            match target_launcher(m, t) {
                Some(l) => Some(s.aggregates.launchers@[l].name@),
                None => None,
            },
            match target_project(m, t) {
                Some(p) => Some(s.aggregates.projects@[p].name@),
                None => None,
            },
        ),
        None => (None, None),
    }
}

/// The focus belongs to registered launchers and projects only, and asking for them does not
/// meet an instance outside a launcher or a launcher outside a project.
pub open spec fn focus_named(s: &DesktopState) -> bool {
    let m = s.aggregates.hierarchy@;
    match s.event_router@.keyboard_focus {
        Some(t) => {
            &&& exists|k: nat|
                first_non_view(m, t, k) && launcher_defined(m, #[trigger] up(m, t, k)) && project_defined(m, up(m, t, k))
            &&& (target_launcher(m, t) matches Some(l) ==> s.aggregates.launchers@.contains_key(l))
            &&& (target_project(m, t) matches Some(p) ==> s.aggregates.projects@.contains_key(p))
        },
        None => true,
    }
}

impl DesktopState {
    /// The title of the desktop's window, given the title the focused view reported.
    pub fn window_title(&self, primary_application: &String, view_title: String) -> (r: String)
        requires
            self.aggregates.wf(),
            focus_named(self),
        ensures
            r@ == spec_window_title(view_title@, primary_application@, focused_names(self).0, focused_names(self).1),
    {
        let ghost m = self.aggregates.hierarchy@;
        let focused = self.focused();
        let (launcher, project) = match focused {
            Some(t) => {
                proof {
                    assert(first_non_view(m, t, crate::topology::view_steps(m, t)));
                }
                (self.aggregates.hierarchy.launcher_of_target(&t), self.aggregates.hierarchy.project_of_target(&t))
            },
            None => (None, None),
        };
        let mut title = if view_title.as_str().is_empty() {
            primary_application.clone()
        } else {
            view_title
        };
        proof {
            reveal_strlit(" - ");
        }
        if let Some(l) = launcher {
            if let Some(state) = self.aggregates.launchers.get(&l) {
                title.append(" - ");
                title.append(state.name.as_str());
            }
        }
        if let Some(p) = project {
            if let Some(properties) = self.aggregates.projects.get(&p) {
                title.append(" - ");
                title.append(properties.name.as_str());
            }
        }
        title
    }

    /// What follows when `instance` created `view`: the instance is measured again, and when the
    /// instance has the keyboard focus and the view is its primary one, the focus moves to the
    /// view.
    pub fn view_created(&self, instance: InstanceId, view: ViewId, primary: bool) -> (r: ChangeOutput)
        ensures
            r.wf(),
            r.surface.invalid_set() == set![DesktopTarget::Instance(instance)],
            !r.surface.window_size_changed,
            views(r.changes@) == if primary && self.event_router@.keyboard_focus == Some(DesktopTarget::Instance(instance)) {
                spec_set_focus(Some(DesktopTarget::View(view)), KeyboardFocusReason::PromotePrimaryView)
            } else {
                Seq::empty()
            },
    {
        let mut output = ChangeOutput::measures(DesktopTarget::Instance(instance));
        let focused = self.focused();
        if primary && focused == Some(DesktopTarget::Instance(instance)) {
            output.changes = set_focus(Some(DesktopTarget::View(view)), KeyboardFocusReason::PromotePrimaryView);
        } else {
            proof {
                assert(views(output.changes@) =~= Seq::empty());
            }
        }
        output
    }

    /// The keyboard focus.
    fn focused(&self) -> (r: Option<DesktopTarget>)
        ensures
            r == self.event_router@.keyboard_focus,
    {
        match self.event_router.focused() {
            Some(t) => Some(*t),
            None => None,
        }
    }

    /// Apply one change. Returns what it left behind (or why it failed), and the work outside the
    /// library it asks for; that work is owed whether or not the change succeeded.
    pub fn apply_change(&mut self, change: DesktopChange) -> (r: (Result<ChangeOutput, ApplyError>, ChangeWork))
        requires
            old(self).aggregates.wf(),
            change_applicable(old(self), change),
        ensures
            final(self).aggregates.hierarchy.wf(),
            desktop_shape(final(self).aggregates.hierarchy@) ==> final(self).aggregates.wf(),
            r.0 matches Ok(out) ==> out.wf(),
            match change {
                DesktopChange::SpawnInstance(instance) => {
                    &&& same_aggregates(&old(self).aggregates, &final(self).aggregates)
                    &&& final(self).event_router@ == old(self).event_router@
                    &&& final(self).navigation_control == old(self).navigation_control
                    &&& final(self).focus_depth == old(self).focus_depth
                    &&& final(self).panel_width == old(self).panel_width
                    &&& final(self).panel_height == old(self).panel_height
                    &&& measures_only(r.0, Set::empty())
                    &&& r.1 == ChangeWork::Spawn { instance, width: old(self).panel_width, height: old(self).panel_height }
                },
                DesktopChange::ShutdownInstance(instance) => {
                    &&& same_aggregates(&old(self).aggregates, &final(self).aggregates)
                    &&& final(self).event_router@ == old(self).event_router@
                    &&& final(self).navigation_control == old(self).navigation_control
                    &&& final(self).focus_depth == old(self).focus_depth
                    &&& final(self).panel_width == old(self).panel_width
                    &&& final(self).panel_height == old(self).panel_height
                    &&& measures_only(r.0, Set::empty())
                    &&& r.1 == ChangeWork::Shutdown(instance)
                },
                DesktopChange::PresentInstance { launcher, instance } => {
                    &&& same_aggregates(&old(self).aggregates, &final(self).aggregates)
                    &&& final(self).event_router@ == old(self).event_router@
                    &&& final(self).navigation_control == old(self).navigation_control
                    &&& final(self).focus_depth == old(self).focus_depth
                    &&& final(self).panel_width == old(self).panel_width
                    &&& final(self).panel_height == old(self).panel_height
                    &&& measures_only(r.0, Set::empty())
                    &&& r.1 == ChangeWork::Present { launcher, instance }
                },
                DesktopChange::HideInstance { launcher, instance } => {
                    &&& same_aggregates(&old(self).aggregates, &final(self).aggregates)
                    &&& final(self).event_router@ == old(self).event_router@
                    &&& final(self).navigation_control == old(self).navigation_control
                    &&& final(self).focus_depth == old(self).focus_depth
                    &&& final(self).panel_width == old(self).panel_width
                    &&& final(self).panel_height == old(self).panel_height
                    &&& measures_only(r.0, Set::empty())
                    &&& r.1 == ChangeWork::Hide { launcher, instance }
                },
                DesktopChange::SetFocus { target, .. } => {
                    let (router, transitions) = spec_set_keyboard_focus(old(self).event_router@, target);
                    &&& same_aggregates(&old(self).aggregates, &final(self).aggregates)
                    &&& final(self).event_router@ == router
                    &&& final(self).navigation_control == old(self).navigation_control
                    &&& final(self).focus_depth == old(self).focus_depth
                    &&& final(self).panel_width == old(self).panel_width
                    &&& final(self).panel_height == old(self).panel_height
                    &&& measures_only(r.0, opt_set(old(self).event_router@.keyboard_focus).union(opt_set(target)))
                    &&& r.1 matches ChangeWork::Forward(t) && t@ == transitions
                },
                DesktopChange::CommitNavigationAffinity(affinity) => {
                    &&& same_aggregates(&old(self).aggregates, &final(self).aggregates)
                    &&& final(self).event_router@ == old(self).event_router@
                    &&& final(self).navigation_control.affinity() == affinity
                    &&& final(self).focus_depth == old(self).focus_depth
                    &&& final(self).panel_width == old(self).panel_width
                    &&& final(self).panel_height == old(self).panel_height
                    &&& measures_only(r.0, Set::empty())
                    &&& r.1 == ChangeWork::Nothing
                },
                DesktopChange::CommitFocusDepth(depth) => {
                    &&& same_aggregates(&old(self).aggregates, &final(self).aggregates)
                    &&& final(self).event_router@ == old(self).event_router@
                    &&& final(self).navigation_control == old(self).navigation_control
                    &&& final(self).focus_depth == depth
                    &&& final(self).panel_width == old(self).panel_width
                    &&& final(self).panel_height == old(self).panel_height
                    &&& measures_only(
                        r.0,
                        if depth != old(self).focus_depth {
                            opt_set(old(self).event_router@.keyboard_focus)
                        } else {
                            Set::empty()
                        },
                    )
                    &&& r.1 == ChangeWork::Nothing
                },
                DesktopChange::ResizeAll { width, height } => {
                    &&& same_aggregates(&old(self).aggregates, &final(self).aggregates)
                    &&& final(self).event_router@ == old(self).event_router@
                    &&& final(self).navigation_control == old(self).navigation_control
                    &&& final(self).focus_depth == old(self).focus_depth
                    &&& final(self).panel_width == width
                    &&& final(self).panel_height == height
                    &&& measures_only(r.0, set![DesktopTarget::Desktop])
                    &&& r.1 == ChangeWork::ResizeInstances { width, height }
                },
                DesktopChange::Topology(tc) => {
                    let m = old(self).aggregates.hierarchy@;
                    let (router, transitions) = router_for(old(self).event_router@, m, tc);
                    &&& final(self).aggregates.hierarchy@ == topology_after(router, m, tc)
                    &&& final(self).aggregates.matrix_positions == old(self).aggregates.matrix_positions
                    &&& final(self).aggregates.projects == old(self).aggregates.projects
                    &&& final(self).aggregates.launchers == old(self).aggregates.launchers
                    &&& final(self).aggregates.startup_profile == old(self).aggregates.startup_profile
                    &&& final(self).event_router@ == router
                    &&& final(self).navigation_control == old(self).navigation_control
                    &&& final(self).focus_depth == old(self).focus_depth
                    &&& final(self).panel_width == old(self).panel_width
                    &&& final(self).panel_height == old(self).panel_height
                    &&& match topology_result(router, m, tc) {
                        Ok(parent) => measures_only(
                            r.0,
                            set![parent].union(opt_set(old(self).event_router@.keyboard_focus)).union(
                                opt_set(router.keyboard_focus),
                            ),
                        ),
                        Err(e) => r.0 == Err::<ChangeOutput, ApplyError>(e),
                    }
                    &&& r.1 matches ChangeWork::Forward(t) && t@ == transitions
                },
                DesktopChange::ForwardEvents(transitions) => {
                    &&& same_aggregates(&old(self).aggregates, &final(self).aggregates)
                    &&& final(self).event_router@ == old(self).event_router@
                    &&& final(self).navigation_control == old(self).navigation_control
                    &&& final(self).focus_depth == old(self).focus_depth
                    &&& final(self).panel_width == old(self).panel_width
                    &&& final(self).panel_height == old(self).panel_height
                    &&& measures_only(r.0, Set::empty())
                    &&& r.1 matches ChangeWork::Forward(t) && t@ == transitions@
                },
                DesktopChange::Project(pc) => {
                    &&& project_change_applied(&old(self).aggregates, &final(self).aggregates, pc)
                    &&& final(self).event_router@ == old(self).event_router@
                    &&& final(self).navigation_control == old(self).navigation_control
                    &&& final(self).focus_depth == old(self).focus_depth
                    &&& final(self).panel_width == old(self).panel_width
                    &&& final(self).panel_height == old(self).panel_height
                    &&& match project_change_result(&old(self).aggregates, pc) {
                        Ok(Some(t)) => measures_only(r.0, set![t]),
                        Ok(None) => measures_only(r.0, Set::empty()),
                        Err(e) => r.0 == Err::<ChangeOutput, ApplyError>(e),
                    }
                    &&& r.1 == ChangeWork::Nothing
                },
            },
    {
        match change {
            DesktopChange::SpawnInstance(instance) => (
                Ok(ChangeOutput::new()),
                ChangeWork::Spawn { instance, width: self.panel_width, height: self.panel_height },
            ),
            DesktopChange::ShutdownInstance(instance) => (Ok(ChangeOutput::new()), ChangeWork::Shutdown(instance)),
            DesktopChange::PresentInstance { launcher, instance } => (
                Ok(ChangeOutput::new()),
                ChangeWork::Present { launcher, instance },
            ),
            DesktopChange::HideInstance { launcher, instance } => (
                Ok(ChangeOutput::new()),
                ChangeWork::Hide { launcher, instance },
            ),
            DesktopChange::SetFocus { target, .. } => {
                let previous = self.focused();
                let transitions = self.event_router.focus(target.as_ref());
                let current = self.focused();
                let mut output = ChangeOutput::new();
                if let Some(p) = previous {
                    output.focus_changed(p);
                }
                if let Some(c) = current {
                    output.focus_changed(c);
                }
                proof {
                    assert(output.surface.invalid_set() =~= opt_set(previous).union(opt_set(target)));
                }
                (Ok(output), ChangeWork::Forward(transitions))
            },
            DesktopChange::CommitNavigationAffinity(affinity) => {
                self.navigation_control.commit_column_affinity(affinity);
                (Ok(ChangeOutput::new()), ChangeWork::Nothing)
            },
            DesktopChange::CommitFocusDepth(depth) => {
                let mut output = ChangeOutput::new();
                if self.focus_depth != depth {
                    self.focus_depth = depth;
                    if let Some(f) = self.focused() {
                        output.focus_changed(f);
                    }
                    proof {
                        assert(output.surface.invalid_set() =~= opt_set(old(self).event_router@.keyboard_focus));
                    }
                }
                (Ok(output), ChangeWork::Nothing)
            },
            DesktopChange::ResizeAll { width, height } => {
                self.panel_width = width;
                self.panel_height = height;
                (Ok(ChangeOutput::measures(DesktopTarget::Desktop)), ChangeWork::ResizeInstances { width, height })
            },
            DesktopChange::Topology(change) => {
                let previous = self.focused();
                let transitions = match &change {
                    TopologyChange::Remove(target) => {
                        let mut t = unfocus_pointer_if_path_contains(
                            &mut self.event_router,
                            &self.aggregates.hierarchy,
                            target,
                        );
                        let more = refocus_to_parent_if_path_contains(
                            &mut self.event_router,
                            &self.aggregates.hierarchy,
                            target,
                        );
                        t.append(more);
                        t
                    },
                    _ => EventTransitions::default(),
                };
                let result = apply_topology_change(&self.event_router, &mut self.aggregates.hierarchy, change);
                let current = self.focused();
                let output = match result {
                    Ok(parent) => {
                        let mut output = ChangeOutput::measures(parent);
                        if let Some(p) = previous {
                            output.focus_changed(p);
                        }
                        if let Some(c) = current {
                            output.focus_changed(c);
                        }
                        proof {
                            assert(output.surface.invalid_set() =~= set![parent].union(opt_set(previous)).union(
                                opt_set(current),
                            ));
                        }
                        Ok(output)
                    },
                    Err(e) => Err(e),
                };
                (output, ChangeWork::Forward(transitions))
            },
            DesktopChange::ForwardEvents(transitions) => (Ok(ChangeOutput::new()), ChangeWork::Forward(transitions)),
            DesktopChange::Project(change) => {
                let output = match self.aggregates.apply_project_change(change) {
                    Ok(Some(target)) => Ok(ChangeOutput::measures(target)),
                    Ok(None) => Ok(ChangeOutput::new()),
                    Err(e) => Err(e),
                };
                (output, ChangeWork::Nothing)
            },
        }
    }
}

/// Before a target is removed, the router lets go of it: afterwards neither the pointer focus nor
/// the keyboard focus lies on or under the removed target.
pub proof fn law_release_leaves_no_focus_inside(
    router: RouterView<DesktopTarget>,
    m: HierarchyView<DesktopTarget>,
    t: DesktopTarget,
)
    requires
        resolvable(m, router.pointer_focus),
        resolvable(m, router.keyboard_focus),
    ensures
        !spec_path_of(m, released(router, m, t).0.pointer_focus).contains(t),
        !spec_path_of(m, released(router, m, t).0.keyboard_focus).contains(t),
{
    let r = released(router, m, t).0;
    if spec_path_of(m, router.keyboard_focus).contains(t) {
        let f = router.keyboard_focus->0;
        lemma_on_path(m, f, t);
        match parent_of(m, t) {
            Some(p) => {
                assert(r.keyboard_focus == Some(p));
                assert(up(m, t, 0) == Some(t));
                assert(up(m, t, 1) == Some(p));
                let z = choose|z: nat| #[trigger] up(m, t, z) is None;
                lemma_up_add(m, t, 1, z);
                crate::focus_path::lemma_up_none_stays(m, t, z, 1 + z);
                assert(up(m, p, z) is None);
                assert(chain_finite(m, p));
                if spec_resolve_path(m, p).contains(t) {
                    lemma_on_path(m, p, t);
                    let j = choose|j: nat| up(m, p, j) == Some(t);
                    lemma_up_add(m, t, 1, j);
                    lemma_no_return(m, t, 1 + j);
                }
            },
            None => {},
        }
    }
}

} // verus!
