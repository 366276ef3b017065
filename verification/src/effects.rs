//! Desktop effects and their scheduler: effects run phase by phase, and an effect that is
//! scheduled again moves behind the other pending work of its phase.
use std::collections::VecDeque;
use vstd::prelude::*;

use crate::ids::DesktopTarget;

verus! {

/// Work the desktop performs on a target after a change.
#[derive(Debug, Clone, Copy, PartialEq, Eq, Hash, Structural)]
pub enum DesktopEffect {
    Measure(DesktopTarget),
    Place(DesktopTarget),
    ApplyLayout(DesktopTarget),
}

/// The phase an effect belongs to; phases run in declaration order.
#[derive(Debug, Clone, Copy, PartialEq, Eq, Hash, Structural)]
pub enum DesktopEffectPhase {
    Layout,
    PropagatePlacements,
}

/// The position of a phase in the order in which phases run.
pub open spec fn phase_rank(p: DesktopEffectPhase) -> nat {
    match p {
        DesktopEffectPhase::Layout => 0,
        DesktopEffectPhase::PropagatePlacements => 1,
    }
}

pub open spec fn spec_phase(e: DesktopEffect) -> DesktopEffectPhase {
    match e {
        DesktopEffect::Measure(_) => DesktopEffectPhase::Layout,
        DesktopEffect::Place(_) => DesktopEffectPhase::Layout,
        DesktopEffect::ApplyLayout(_) => DesktopEffectPhase::PropagatePlacements,
    }
}

impl DesktopEffect {
    pub fn phase(&self) -> (r: DesktopEffectPhase)
        ensures
            r == spec_phase(*self),
    {
        match self {
            DesktopEffect::Measure(_) | DesktopEffect::Place(_) => DesktopEffectPhase::Layout,
            DesktopEffect::ApplyLayout(_) => DesktopEffectPhase::PropagatePlacements,
        }
    }
}

/// An ordered list of effects.
#[derive(Debug, PartialEq)]
pub struct Effects {
    effects: Vec<DesktopEffect>,
}

impl View for Effects {
    type V = Seq<DesktopEffect>;

    closed spec fn view(&self) -> Seq<DesktopEffect> {
        self.effects@
    }
}

impl Default for Effects {
    fn default() -> (e: Self)
        ensures
            e@ == Seq::<DesktopEffect>::empty(),
    {
        Effects::none()
    }
}

impl From<Vec<DesktopEffect>> for Effects {
    fn from(effects: Vec<DesktopEffect>) -> (e: Effects)
        ensures
            e@ == effects@,
    {
        Effects { effects }
    }
}

impl vstd::std_specs::convert::FromSpecImpl<Vec<DesktopEffect>> for Effects {
    open spec fn obeys_from_spec() -> bool {
        true
    }

    closed spec fn from_spec(v: Vec<DesktopEffect>) -> Effects {
        Effects { effects: v }
    }
}

impl Effects {
    /// No effects.
    pub fn none() -> (e: Self)
        ensures
            e@ == Seq::<DesktopEffect>::empty(),
    {
        Effects { effects: Vec::new() }
    }

    /// Append one effect.
    pub fn push(&mut self, effect: DesktopEffect)
        ensures
            final(self)@ == old(self)@.push(effect),
    {
        self.effects.push(effect);
    }

    /// Append all effects of `other`, in their order.
    pub fn append(&mut self, other: Effects)
        ensures
            final(self)@ == old(self)@ + other@,
    {
        let mut other = other;
        self.effects.append(&mut other.effects);
    }

    pub fn as_slice(&self) -> (r: &[DesktopEffect])
        ensures
            r@ == self@,
    {
        self.effects.as_slice()
    }

    pub fn into_vec(self) -> (r: Vec<DesktopEffect>)
        ensures
            r@ == self@,
    {
        self.effects
    }
}

/// The abstract state of a scheduler: the pending effects of each phase and the running phase.
pub struct SchedulerView {
    pub layout: Seq<DesktopEffect>,
    pub propagate: Seq<DesktopEffect>,
    pub current: DesktopEffectPhase,
}

/// The pending effects of `phase`.
pub open spec fn queue_of(s: SchedulerView, phase: DesktopEffectPhase) -> Seq<DesktopEffect> {
    match phase {
        DesktopEffectPhase::Layout => s.layout,
        DesktopEffectPhase::PropagatePlacements => s.propagate,
    }
}

/// No pending effect occurs twice in its queue, every effect waits in the queue of its phase, and
/// once placements propagate, no layout work is left.
pub open spec fn scheduler_wf(s: SchedulerView) -> bool {
    &&& s.layout.no_duplicates()
    &&& s.propagate.no_duplicates()
    &&& forall|i: int| 0 <= i < s.layout.len() ==> spec_phase(#[trigger] s.layout[i]) == DesktopEffectPhase::Layout
    &&& forall|i: int|
        0 <= i < s.propagate.len() ==> spec_phase(#[trigger] s.propagate[i]) == DesktopEffectPhase::PropagatePlacements
    &&& s.current == DesktopEffectPhase::PropagatePlacements ==> s.layout.len() == 0
}

/// `q` with `e` behind all other pending work: an equal pending effect is taken out first.
pub open spec fn requeue(q: Seq<DesktopEffect>, e: DesktopEffect) -> Seq<DesktopEffect> {
    if q.contains(e) {
        q.remove(q.index_of(e)).push(e)
    } else {
        q.push(e)
    }
}

/// The scheduler after `enqueue(e)`.
pub open spec fn spec_enqueue(s: SchedulerView, e: DesktopEffect) -> SchedulerView {
    match spec_phase(e) {
        DesktopEffectPhase::Layout => SchedulerView { layout: requeue(s.layout, e), ..s },
        DesktopEffectPhase::PropagatePlacements => SchedulerView { propagate: requeue(s.propagate, e), ..s },
    }
}

/// The scheduler after enqueueing `es` in order.
pub open spec fn spec_enqueue_all(s: SchedulerView, es: Seq<DesktopEffect>) -> SchedulerView
    decreases es.len(),
{
    if es.len() == 0 {
        s
    } else {
        spec_enqueue(spec_enqueue_all(s, es.drop_last()), es.last())
    }
}

/// Every effect of `es` belongs to the running phase or a later one.
pub open spec fn enqueue_allowed(s: SchedulerView, es: Seq<DesktopEffect>) -> bool {
    forall|i: int| 0 <= i < es.len() ==> phase_rank(s.current) <= phase_rank(spec_phase(#[trigger] es[i]))
}

/// The effect `pop_next` hands out and the scheduler after it: the first pending effect of the
/// earliest phase that has one, which becomes the running phase.
pub open spec fn spec_pop(s: SchedulerView) -> (Option<DesktopEffect>, SchedulerView) {
    if s.layout.len() > 0 {
        (Some(s.layout[0]), SchedulerView { layout: s.layout.drop_first(), current: DesktopEffectPhase::Layout, ..s })
    } else if s.propagate.len() > 0 {
        (
            Some(s.propagate[0]),
            SchedulerView {
                propagate: s.propagate.drop_first(),
                current: DesktopEffectPhase::PropagatePlacements,
                ..s
            },
        )
    } else {
        (None, s)
    }
}

proof fn lemma_requeue_no_duplicates(q: Seq<DesktopEffect>, e: DesktopEffect)
    requires
        q.no_duplicates(),
    ensures
        requeue(q, e).no_duplicates(),
        forall|x: DesktopEffect| #[trigger] requeue(q, e).contains(x) <==> (q.contains(x) || x == e),
{
    if q.contains(e) {
        let i = q.index_of(e);
        let r = q.remove(i);
        assert(q[i] == e);
        assert forall|a: int, b: int| 0 <= a < r.len() && 0 <= b < r.len() && a != b implies r[a] != r[b] by {
            let qa = if a < i { a } else { a + 1 };
            let qb = if b < i { b } else { b + 1 };
            assert(r[a] == q[qa]);
            assert(r[b] == q[qb]);
        }
        assert(!r.contains(e)) by {
            if r.contains(e) {
                let k = choose|k: int| 0 <= k < r.len() && r[k] == e;
                let qk = if k < i { k } else { k + 1 };
                assert(q[qk] == e);
            }
        }
        assert forall|a: int, b: int|
            0 <= a < r.push(e).len() && 0 <= b < r.push(e).len() && a != b implies r.push(e)[a] != r.push(e)[b] by {
            if a < r.len() && b < r.len() {
            } else if a < r.len() {
                assert(r.contains(r[a]));
            } else if b < r.len() {
                assert(r.contains(r[b]));
            }
        }
        assert forall|x: DesktopEffect| #[trigger] requeue(q, e).contains(x) <==> (q.contains(x) || x == e) by {
            if q.contains(x) && x != e {
                let k = choose|k: int| 0 <= k < q.len() && q[k] == x;
                assert(k != i);
                let rk = if k < i { k } else { k - 1 };
                assert(r[rk] == x);
                assert(r.push(e)[rk] == x);
            }
            if x == e {
                assert(r.push(e)[r.len() as int] == e);
            }
            if requeue(q, e).contains(x) && x != e {
                let k = choose|k: int| 0 <= k < r.push(e).len() && r.push(e)[k] == x;
                assert(k < r.len());
                let qk = if k < i { k } else { k + 1 };
                assert(q[qk] == x);
            }
        }
    } else {
        assert forall|x: DesktopEffect| #[trigger] requeue(q, e).contains(x) <==> (q.contains(x) || x == e) by {
            if q.contains(x) {
                let k = choose|k: int| 0 <= k < q.len() && q[k] == x;
                assert(q.push(e)[k] == x);
            }
            if x == e {
                assert(q.push(e)[q.len() as int] == e);
            }
            if requeue(q, e).contains(x) && x != e {
                let k = choose|k: int| 0 <= k < q.push(e).len() && q.push(e)[k] == x;
                assert(q[k] == x);
            }
        }
    }
}

/// Enqueueing an allowed effect keeps the scheduler well formed.
pub proof fn law_enqueue_keeps_wf(s: SchedulerView, e: DesktopEffect)
    requires
        scheduler_wf(s),
        phase_rank(s.current) <= phase_rank(spec_phase(e)),
    ensures
        scheduler_wf(spec_enqueue(s, e)),
        queue_of(spec_enqueue(s, e), spec_phase(e)).last() == e,
{
    lemma_requeue_no_duplicates(s.layout, e);
    lemma_requeue_no_duplicates(s.propagate, e);
    let r = spec_enqueue(s, e);
    match spec_phase(e) {
        DesktopEffectPhase::Layout => {
            assert forall|i: int| 0 <= i < r.layout.len() implies spec_phase(#[trigger] r.layout[i])
                == DesktopEffectPhase::Layout by {
                assert(r.layout.contains(r.layout[i]));
                if r.layout[i] != e {
                    let k = choose|k: int| 0 <= k < s.layout.len() && s.layout[k] == r.layout[i];
                }
            }
        },
        DesktopEffectPhase::PropagatePlacements => {
            assert forall|i: int| 0 <= i < r.propagate.len() implies spec_phase(#[trigger] r.propagate[i])
                == DesktopEffectPhase::PropagatePlacements by {
                assert(r.propagate.contains(r.propagate[i]));
                if r.propagate[i] != e {
                    let k = choose|k: int| 0 <= k < s.propagate.len() && s.propagate[k] == r.propagate[i];
                }
            }
        },
    }
}

/// Popping keeps the scheduler well formed, never goes back to an earlier phase, and hands out an
/// effect of the phase it then runs.
pub proof fn law_pop_moves_forward(s: SchedulerView)
    requires
        scheduler_wf(s),
    ensures
        scheduler_wf(spec_pop(s).1),
        phase_rank(s.current) <= phase_rank(spec_pop(s).1.current),
        match spec_pop(s).0 {
            Some(e) => spec_phase(e) == spec_pop(s).1.current,
            None => s.layout.len() == 0 && s.propagate.len() == 0,
        },
{
    let r = spec_pop(s).1;
    if s.layout.len() > 0 {
        assert(spec_phase(s.layout[0]) == DesktopEffectPhase::Layout);
        assert forall|i: int| 0 <= i < r.layout.len() implies spec_phase(#[trigger] r.layout[i])
            == DesktopEffectPhase::Layout by {
            assert(r.layout[i] == s.layout[i + 1]);
        }
        assert forall|a: int, b: int| 0 <= a < r.layout.len() && 0 <= b < r.layout.len() && a != b implies r.layout[a]
            != r.layout[b] by {
            assert(r.layout[a] == s.layout[a + 1]);
            assert(r.layout[b] == s.layout[b + 1]);
        }
    } else if s.propagate.len() > 0 {
        assert(spec_phase(s.propagate[0]) == DesktopEffectPhase::PropagatePlacements);
        assert forall|i: int| 0 <= i < r.propagate.len() implies spec_phase(#[trigger] r.propagate[i])
            == DesktopEffectPhase::PropagatePlacements by {
            assert(r.propagate[i] == s.propagate[i + 1]);
        }
        assert forall|a: int, b: int|
            0 <= a < r.propagate.len() && 0 <= b < r.propagate.len() && a != b implies r.propagate[a]
                != r.propagate[b] by {
            assert(r.propagate[a] == s.propagate[a + 1]);
            assert(r.propagate[b] == s.propagate[b + 1]);
        }
    }
}

/// Runs effects phase by phase.
#[derive(Debug)]
pub struct DesktopEffectScheduler {
    layout: VecDeque<DesktopEffect>,
    propagate: VecDeque<DesktopEffect>,
    current_phase: DesktopEffectPhase,
}

impl View for DesktopEffectScheduler {
    type V = SchedulerView;

    closed spec fn view(&self) -> SchedulerView {
        SchedulerView { layout: self.layout@, propagate: self.propagate@, current: self.current_phase }
    }
}

/// The position of `effect` in `queue`, if it is pending there.
fn position(queue: &VecDeque<DesktopEffect>, effect: &DesktopEffect) -> (r: Option<usize>)
    ensures
        match r {
            Some(i) => i < queue@.len() && queue@[i as int] == *effect,
            None => !queue@.contains(*effect),
        },
{
    let mut i: usize = 0;
    while i < queue.len()
        invariant
            i <= queue@.len(),
            forall|j: int| 0 <= j < i ==> queue@[j] != *effect,
        decreases queue@.len() - i,
    {
        if queue[i] == *effect {
            return Some(i);
        }
        i += 1;
    }
    None
}

/// Put `effect` behind all pending work of `queue`, taking out an equal pending effect.
fn requeue_in(queue: &mut VecDeque<DesktopEffect>, effect: DesktopEffect)
    requires
        old(queue)@.no_duplicates(),
    ensures
        final(queue)@ == requeue(old(queue)@, effect),
{
    match position(queue, &effect) {
        Some(index) => {
            proof {
                let q = queue@;
                let k = q.index_of(effect);
                assert(q[k] == effect);
                assert(k == index);
            }
            let _ = queue.remove(index);
        },
        None => {},
    }
    queue.push_back(effect);
}

impl DesktopEffectScheduler {
    pub closed spec fn wf(&self) -> bool {
        scheduler_wf(self@)
    }

    /// A scheduler that starts in the first phase with `initial_effects` pending.
    pub fn new(initial_effects: Effects) -> (s: Self)
        ensures
            s.wf(),
            s@ == spec_enqueue_all(
                SchedulerView {
                    layout: Seq::empty(),
                    propagate: Seq::empty(),
                    current: DesktopEffectPhase::Layout,
                },
                initial_effects@,
            ),
    {
        let mut scheduler = DesktopEffectScheduler {
            layout: VecDeque::new(),
            propagate: VecDeque::new(),
            current_phase: DesktopEffectPhase::Layout,
        };
        proof {
            assert(scheduler.layout@.no_duplicates());
            assert(scheduler.propagate@.no_duplicates());
        }
        scheduler.enqueue_all(initial_effects);
        scheduler
    }

    /// Schedule all `effects`, in their order.
    pub fn enqueue_all(&mut self, effects: Effects)
        requires
            old(self).wf(),
            enqueue_allowed(old(self)@, effects@),
        ensures
            final(self).wf(),
            final(self)@ == spec_enqueue_all(old(self)@, effects@),
    {
        let effects = effects.into_vec();
        let ghost start = self@;
        let mut i: usize = 0;
        while i < effects.len()
            invariant
                i <= effects@.len(),
                self.wf(),
                self@ == spec_enqueue_all(start, effects@.take(i as int)),
                self@.current == start.current,
                enqueue_allowed(start, effects@),
            decreases effects@.len() - i,
        {
            proof {
                assert(effects@.take(i + 1).drop_last() =~= effects@.take(i as int));
                assert(phase_rank(start.current) <= phase_rank(spec_phase(effects@[i as int])));
            }
            self.enqueue(effects[i]);
            i += 1;
        }
        assert(effects@.take(effects@.len() as int) =~= effects@);
    }

    /// Hand out the next effect: the first pending one of the earliest phase that has any.
    pub fn pop_next(&mut self) -> (r: Option<DesktopEffect>)
        requires
            old(self).wf(),
        ensures
            final(self).wf(),
            (r, final(self)@) == spec_pop(old(self)@),
    {
        proof {
            law_pop_moves_forward(self@);
        }
        if let DesktopEffectPhase::Layout = self.current_phase {
            if let Some(effect) = self.layout.pop_front() {
                return Some(effect);
            }
        }
        if let Some(effect) = self.propagate.pop_front() {
            self.current_phase = DesktopEffectPhase::PropagatePlacements;
            return Some(effect);
        }
        None
    }

    /// Schedule `effect` after the existing work of its phase, moving an equal pending effect to
    /// the end. Phases already processed cannot receive new effects.
    fn enqueue(&mut self, effect: DesktopEffect)
        requires
            old(self).wf(),
            phase_rank(old(self)@.current) <= phase_rank(spec_phase(effect)),
        ensures
            final(self).wf(),
            final(self)@ == spec_enqueue(old(self)@, effect),
    {
        proof {
            law_enqueue_keeps_wf(self@, effect);
        }
        match effect.phase() {
            DesktopEffectPhase::Layout => requeue_in(&mut self.layout, effect),
            DesktopEffectPhase::PropagatePlacements => requeue_in(&mut self.propagate, effect),
        }
    }
}

} // verus!
