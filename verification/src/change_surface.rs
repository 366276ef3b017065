//! What applying changes leaves behind: the targets whose layout must be measured again, and
//! whether the window size changed; and the run that applies a list of changes to completion.
use vstd::prelude::*;

use std::collections::VecDeque;

use crate::change::{views, ChangeView, DesktopChange};
use crate::ids::DesktopTarget;

verus! {

/// The targets invalidated by applied changes, each once, and whether the window size changed.
#[derive(Debug)]
pub struct ChangeSurface {
    /// A remeasure is required for these targets.
    pub size_invalid: Vec<DesktopTarget>,
    pub window_size_changed: bool,
}

impl ChangeSurface {
    /// Every target is held once.
    pub open spec fn wf(&self) -> bool {
        self.size_invalid@.no_duplicates()
    }

    /// The targets to measure again, as a set.
    pub open spec fn invalid_set(&self) -> Set<DesktopTarget> {
        self.size_invalid@.to_set()
    }

    /// A surface with nothing to measure again.
    pub fn new() -> (r: Self)
        ensures
            r.wf(),
            r.invalid_set() == Set::<DesktopTarget>::empty(),
            !r.window_size_changed,
    {
        let r = ChangeSurface { size_invalid: Vec::new(), window_size_changed: false };
        assert(r.size_invalid@.to_set() =~= Set::<DesktopTarget>::empty());
        r
    }

    /// The camera has to be fitted again: something changed size, or the window did.
    pub fn camera_invalid(&self) -> (r: bool)
        requires
            self.wf(),
        ensures
            r == (self.invalid_set() != Set::<DesktopTarget>::empty() || self.window_size_changed),
    {
        proof {
            if self.size_invalid@.len() > 0 {
                assert(self.invalid_set().contains(self.size_invalid@[0]));
            } else {
                assert(self.invalid_set() =~= Set::<DesktopTarget>::empty());
            }
        }
        self.size_invalid.len() > 0 || self.window_size_changed
    }

    /// Mark `target` to be measured again.
    pub fn invalidate(&mut self, target: DesktopTarget)
        requires
            old(self).wf(),
        ensures
            final(self).wf(),
            final(self).invalid_set() == old(self).invalid_set().insert(target),
            final(self).window_size_changed == old(self).window_size_changed,
    {
        let mut i: usize = 0;
        while i < self.size_invalid.len()
            invariant
                i <= self.size_invalid@.len(),
                forall|j: int| 0 <= j < i ==> self.size_invalid@[j] != target,
                self.wf(),
                *self == *old(self),
            decreases self.size_invalid@.len() - i,
        {
            if self.size_invalid[i] == target {
                proof {
                    assert(self.invalid_set().insert(target) =~= self.invalid_set());
                }
                return;
            }
            i += 1;
        }
        let ghost before = self.size_invalid@;
        self.size_invalid.push(target);
        proof {
            assert(!before.contains(target));
            assert(self.size_invalid@.to_set() =~= before.to_set().insert(target)) by {
                assert forall|t: DesktopTarget| #[trigger] self.size_invalid@.contains(t) <==> (before.contains(t) || t == target) by {
                    if self.size_invalid@.contains(t) {
                        let k = self.size_invalid@.index_of(t);
                        if k < before.len() {
                            assert(before[k] == t);
                        }
                    }
                    if before.contains(t) {
                        let k = before.index_of(t);
                        assert(self.size_invalid@[k] == t);
                    }
                    if t == target {
                        assert(self.size_invalid@[before.len() as int] == t);
                    }
                }
            }
        }
    }

    /// Add what `other` leaves behind to what this surface leaves behind.
    pub fn combine(&mut self, other: ChangeSurface)
        requires
            old(self).wf(),
            other.wf(),
        ensures
            final(self).wf(),
            final(self).invalid_set() == old(self).invalid_set().union(other.invalid_set()),
            final(self).window_size_changed == (old(self).window_size_changed || other.window_size_changed),
    {
        let mut i: usize = 0;
        while i < other.size_invalid.len()
            invariant
                i <= other.size_invalid@.len(),
                self.wf(),
                self.invalid_set() == old(self).invalid_set().union(other.size_invalid@.take(i as int).to_set()),
                self.window_size_changed == old(self).window_size_changed,
            decreases other.size_invalid@.len() - i,
        {
            let target = other.size_invalid[i];
            self.invalidate(target);
            proof {
                assert(other.size_invalid@.take(i + 1) =~= other.size_invalid@.take(i as int).push(target));
                assert(other.size_invalid@.take(i as int).push(target).to_set() =~= other.size_invalid@.take(
                    i as int,
                ).to_set().insert(target)) by {
                    other.size_invalid@.take(i as int).lemma_push_to_set_commute(target);
                }
            }
            i += 1;
        }
        proof {
            assert(other.size_invalid@.take(other.size_invalid@.len() as int) =~= other.size_invalid@);
            assert(self.invalid_set() =~= old(self).invalid_set().union(other.invalid_set()));
        }
        self.window_size_changed = self.window_size_changed || other.window_size_changed;
    }
}

/// What applying one change leaves behind: further changes to apply, and its surface.
#[derive(Debug)]
pub struct ChangeOutput {
    /// Additional changes to schedule.
    pub changes: Vec<DesktopChange>,
    pub surface: ChangeSurface,
}

impl ChangeOutput {
    pub open spec fn wf(&self) -> bool {
        self.surface.wf()
    }

    /// Nothing further to do.
    pub fn new() -> (r: Self)
        ensures
            r.wf(),
            r.changes@.len() == 0,
            r.surface.invalid_set() == Set::<DesktopTarget>::empty(),
            !r.surface.window_size_changed,
    {
        ChangeOutput { changes: Vec::new(), surface: ChangeSurface::new() }
    }

    /// Mark `target` to be measured again.
    pub fn measure(&mut self, target: DesktopTarget)
        requires
            old(self).wf(),
        ensures
            final(self).wf(),
            final(self).changes == old(self).changes,
            final(self).surface.invalid_set() == old(self).surface.invalid_set().insert(target),
            final(self).surface.window_size_changed == old(self).surface.window_size_changed,
    {
        self.surface.invalidate(target);
    }

    /// The focus of `target` changed: it is measured again.
    pub fn focus_changed(&mut self, target: DesktopTarget)
        requires
            old(self).wf(),
        ensures
            final(self).wf(),
            final(self).changes == old(self).changes,
            final(self).surface.invalid_set() == old(self).surface.invalid_set().insert(target),
            final(self).surface.window_size_changed == old(self).surface.window_size_changed,
    {
        self.surface.invalidate(target);
    }

    /// Only `target` is to be measured again.
    pub fn measures(target: DesktopTarget) -> (r: Self)
        ensures
            r.wf(),
            r.changes@.len() == 0,
            r.surface.invalid_set() == set![target],
            !r.surface.window_size_changed,
    {
        let mut r = ChangeOutput::new();
        r.measure(target);
        assert(Set::<DesktopTarget>::empty().insert(target) =~= set![target]);
        r
    }

    /// Only `changes` are to be applied further.
    pub fn changes(changes: Vec<DesktopChange>) -> (r: Self)
        ensures
            r.wf(),
            r.changes == changes,
            r.surface.invalid_set() == Set::<DesktopTarget>::empty(),
            !r.surface.window_size_changed,
    {
        ChangeOutput { changes, surface: ChangeSurface::new() }
    }

    /// Add `other` to this output: its changes after these, and its surface.
    pub fn combine(&mut self, other: ChangeOutput)
        requires
            old(self).wf(),
            other.wf(),
        ensures
            final(self).wf(),
            views(final(self).changes@) == views(old(self).changes@) + views(other.changes@),
            final(self).surface.invalid_set() == old(self).surface.invalid_set().union(other.surface.invalid_set()),
            final(self).surface.window_size_changed == (old(self).surface.window_size_changed
                || other.surface.window_size_changed),
    {
        let ChangeOutput { changes, surface } = other;
        crate::change::append_changes(&mut self.changes, changes);
        self.surface.combine(surface);
    }
}

/// Applies a list of changes to completion. The caller takes the next change, applies it, and
/// hands back what applying it left behind; the changes it produced are applied next, before the
/// rest, and its surface is collected.
pub struct ChangeRun {
    pending: VecDeque<DesktopChange>,
    surface: ChangeSurface,
}

impl ChangeRun {
    /// The changes still to apply, in order.
    pub closed spec fn pending(&self) -> Seq<ChangeView> {
        views(self.pending@)
    }

    /// What the applied changes left behind so far.
    pub closed spec fn collected(&self) -> Set<DesktopTarget> {
        self.surface.invalid_set()
    }

    /// Whether an applied change saw the window size change.
    pub closed spec fn window_size_changed(&self) -> bool {
        self.surface.window_size_changed
    }

    pub closed spec fn wf(&self) -> bool {
        self.surface.wf()
    }

    /// A run over `changes`, with nothing applied yet.
    pub fn new(changes: Vec<DesktopChange>) -> (r: Self)
        ensures
            r.wf(),
            r.pending() == views(changes@),
            r.collected() == Set::<DesktopTarget>::empty(),
            !r.window_size_changed(),
    {
        let mut pending: VecDeque<DesktopChange> = VecDeque::new();
        let mut changes = changes;
        let ghost all = changes@;
        while changes.len() > 0
            invariant
                all == changes@ + pending@,
            decreases changes.len(),
        {
            let ghost before = changes@;
            let c = changes.pop().unwrap();
            proof {
                assert(before == changes@.push(c));
            }
            pending.push_front(c);
            assert(all =~= changes@ + pending@);
        }
        assert(pending@ =~= all);
        ChangeRun { pending, surface: ChangeSurface::new() }
    }

    /// The next change to apply, if any is left.
    pub fn next_change(&mut self) -> (r: Option<DesktopChange>)
        requires
            old(self).wf(),
        ensures
            final(self).wf(),
            final(self).collected() == old(self).collected(),
            final(self).window_size_changed() == old(self).window_size_changed(),
            match r {
                Some(c) => old(self).pending().len() > 0 && c@ == old(self).pending()[0] && final(self).pending()
                    == old(self).pending().drop_first(),
                None => old(self).pending().len() == 0 && final(self).pending() == old(self).pending(),
            },
    {
        let ghost before = self.pending@;
        let r = self.pending.pop_front();
        proof {
            if r is Some {
                assert(views(self.pending@) =~= views(before).drop_first());
            }
        }
        r
    }

    /// Take in what applying a change left behind: its changes are applied next, in their order,
    /// before the changes still pending.
    pub fn complete(&mut self, output: ChangeOutput)
        requires
            old(self).wf(),
            output.wf(),
        ensures
            final(self).wf(),
            final(self).pending() == views(output.changes@) + old(self).pending(),
            final(self).collected() == old(self).collected().union(output.surface.invalid_set()),
            final(self).window_size_changed() == (old(self).window_size_changed() || output.surface.window_size_changed),
    {
        let ChangeOutput { changes, surface } = output;
        let ghost front = changes@;
        let ghost rest = self.pending@;
        let mut changes = changes;
        while changes.len() > 0
            invariant
                front == changes@ + self.pending@.take(self.pending@.len() - rest.len()),
                self.pending@.len() >= rest.len(),
                self.pending@.skip(self.pending@.len() - rest.len()) == rest,
                self.pending@.len() == front.len() - changes@.len() + rest.len(),
                self.surface.wf(),
                self.surface == old(self).surface,
            decreases changes.len(),
        {
            let ghost before = changes@;
            let ghost p = self.pending@;
            let c = changes.pop().unwrap();
            proof {
                assert(before == changes@.push(c));
            }
            self.pending.push_front(c);
            proof {
                let k = p.len() - rest.len();
                assert(self.pending@ == seq![c] + p);
                assert(self.pending@.skip(k + 1) =~= p.skip(k));
                assert(self.pending@.take(k + 1) =~= seq![c] + p.take(k));
                assert(front =~= changes@ + self.pending@.take(k + 1));
            }
        }
        proof {
            let k = self.pending@.len() - rest.len();
            assert(self.pending@ =~= self.pending@.take(k) + self.pending@.skip(k));
            assert(self.pending@ =~= front + rest);
            crate::change::lemma_views_append(front, rest);
        }
        self.surface.combine(surface);
    }

    /// What the run collected. Changes still pending are not applied.
    pub fn finish(self) -> (r: ChangeSurface)
        requires
            self.wf(),
        ensures
            r.wf(),
            r.invalid_set() == self.collected(),
            r.window_size_changed == self.window_size_changed(),
    {
        self.surface
    }
}

} // verus!
