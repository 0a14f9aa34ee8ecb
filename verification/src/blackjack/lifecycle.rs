use vstd::prelude::*;

verus! {

/// One phase of a round, in the fixed order of play.
#[derive(PartialEq, Eq, Structural, Clone, Copy, Debug)]
pub enum Phase {
    Initial,
    Betting,
    Dealing,
    Playing,
    Results,
}

/// The five phases in their fixed order.
pub open spec fn phase_order() -> Seq<Phase> {
    seq![Phase::Initial, Phase::Betting, Phase::Dealing, Phase::Playing, Phase::Results]
}

/// The current phase of a round, the phase it came from, and its
/// position in the fixed phase order. The phase only advances one step
/// at a time; past the last phase it is terminal until an explicit
/// reset.
#[derive(Clone, Debug)]
pub struct LifecyclePhase {
    prev: Option<Phase>,
    curr: Phase,
    index: usize,
}

impl LifecyclePhase {
    /// The current phase.
    pub closed spec fn curr_spec(&self) -> Phase {
        self.curr
    }

    /// The phase before the last advance, if any.
    pub closed spec fn prev_spec(&self) -> Option<Phase> {
        self.prev
    }

    /// The position of the current phase in the fixed order.
    pub closed spec fn index_spec(&self) -> int {
        self.index as int
    }

    /// Well-formed: the position selects a phase, and the current
    /// phase is the one it selects.
    pub open spec fn wf(&self) -> bool {
        0 <= self.index_spec() < 5 && self.curr_spec() == phase_order()[self.index_spec()]
    }

    pub fn new() -> (p: LifecyclePhase)
        ensures
            p.curr_spec() == Phase::Initial,
            p.prev_spec() is None,
            p.index_spec() == 0,
            p.wf(),
    {
        LifecyclePhase { prev: None, curr: Phase::Initial, index: 0 }
    }

    /// The five phases in their fixed order.
    pub fn phases() -> (r: [Phase; 5])
        ensures
            r@ == phase_order(),
    {
        let r = [Phase::Initial, Phase::Betting, Phase::Dealing, Phase::Playing, Phase::Results];
        proof {
            assert(r@ =~= phase_order());
        }
        r
    }

    /// The phase at `index` of the fixed order, or nothing past its
    /// end.
    pub fn from_index(index: usize) -> (r: Option<Phase>)
        ensures
            index < 5 ==> r == Some(phase_order()[index as int]),
            index >= 5 ==> r is None,
    {
        let phases = Self::phases();
        if index < 5 {
            Some(phases[index])
        } else {
            None
        }
    }

    pub fn curr(&self) -> (r: &Phase)
        ensures
            *r == self.curr_spec(),
    {
        &self.curr
    }

    pub fn prev(&self) -> (r: &Option<Phase>)
        ensures
            *r == self.prev_spec(),
    {
        &self.prev
    }

    /// Back to the initial phase, forgetting the history.
    pub fn reset(&mut self)
        ensures
            final(self).curr_spec() == Phase::Initial,
            final(self).prev_spec() is None,
            final(self).index_spec() == 0,
            final(self).wf(),
    {
        self.prev = None;
        self.curr = Phase::Initial;
        self.index = 0;
    }

    /// Advance exactly one phase, recording where it came from; past
    /// the last phase nothing advances until an explicit reset.
    pub fn next(&mut self) -> (r: Option<Phase>)
        requires
            old(self).wf(),
        ensures
            final(self).wf(),
            old(self).index_spec() + 1 < 5 ==> {
                &&& r == Some(phase_order()[old(self).index_spec() + 1])
                &&& final(self).index_spec() == old(self).index_spec() + 1
                &&& final(self).curr_spec() == phase_order()[old(self).index_spec() + 1]
                &&& final(self).prev_spec() == Some(old(self).curr_spec())
            },
            old(self).index_spec() + 1 >= 5 ==> {
                &&& r is None
                &&& *final(self) == *old(self)
            },
    {
        let next_index = self.index + 1;
        match Self::from_index(next_index) {
            Some(phase) => {
                self.prev = Some(self.curr);
                self.curr = phase;
                self.index = next_index;
                Some(phase)
            },
            None => None,
        }
    }
}

/// The round lifecycle: a strictly ordered phase sequence advanced
/// explicitly, never implicitly.
pub struct Lifecycle {
    phase: LifecyclePhase,
}

impl Lifecycle {
    /// The tracked phase position.
    pub closed spec fn phase_spec(&self) -> LifecyclePhase {
        self.phase
    }

    /// Well-formed: the tracked position is.
    pub open spec fn wf(&self) -> bool {
        self.phase_spec().wf()
    }

    pub fn new() -> (l: Lifecycle)
        ensures
            l.wf(),
            l.phase_spec().curr_spec() == Phase::Initial,
            l.phase_spec().prev_spec() is None,
            l.phase_spec().index_spec() == 0,
    {
        Lifecycle { phase: LifecyclePhase::new() }
    }

    pub fn get_phase(&self) -> (r: &LifecyclePhase)
        ensures
            *r == self.phase_spec(),
    {
        &self.phase
    }

    pub fn get_phase_mut(&mut self) -> (r: &mut LifecyclePhase)
        ensures
            *r == old(self).phase_spec(),
            final(self).phase_spec() == *final(r),
    {
        &mut self.phase
    }

    /// Advance the round one phase, or report it finished.
    pub fn next_phase(&mut self) -> (r: Option<Phase>)
        requires
            old(self).wf(),
        ensures
            final(self).wf(),
            old(self).phase_spec().index_spec() + 1 < 5 ==> {
                &&& r == Some(phase_order()[old(self).phase_spec().index_spec() + 1])
                &&& final(self).phase_spec().index_spec() == old(self).phase_spec().index_spec()
                    + 1
                &&& final(self).phase_spec().curr_spec() == phase_order()[old(
                    self,
                ).phase_spec().index_spec() + 1]
                &&& final(self).phase_spec().prev_spec() == Some(
                    old(self).phase_spec().curr_spec(),
                )
            },
            old(self).phase_spec().index_spec() + 1 >= 5 ==> {
                &&& r is None
                &&& *final(self) == *old(self)
            },
    {
        self.phase.next()
    }
}

} // verus!
