use vstd::prelude::*;

verus! {

/// Transient state of one countdown run: the number of one-second ticks the
/// run has in total, and how many of them have been consumed so far.  The
/// engine owns exactly one of these for the lifetime of a run; it is never
/// persisted.
pub struct Countdown {
    pub total: u64,
    pub elapsed: u64,
}

impl Countdown {
    /// A countdown never hands out more ticks than it has.
    pub open spec fn wf(self) -> bool {
        self.elapsed <= self.total
    }

    /// The ticks handed out so far, in the order they were handed out:
    /// 1, 2, ..., elapsed.
    pub open spec fn delivered(self) -> Seq<int> {
        Seq::new(self.elapsed as nat, |i: int| i + 1)
    }

    /// The countdown is complete once every tick has been consumed.
    pub open spec fn spec_is_complete(self) -> bool {
        self.elapsed == self.total
    }

    /// Start a countdown of `total` one-second ticks.
    pub fn new(total: u64) -> (c: Countdown)
        ensures
            c.wf(),
            c.total == total,
            c.elapsed == 0,
            c.delivered() =~= Seq::<int>::empty(),
    {
        Countdown { total, elapsed: 0 }
    }

    pub fn total(&self) -> (r: u64)
        ensures
            r == self.total,
    {
        self.total
    }

    pub fn elapsed(&self) -> (r: u64)
        ensures
            r == self.elapsed,
    {
        self.elapsed
    }

    pub fn is_complete(&self) -> (r: bool)
        ensures
            r == self.spec_is_complete(),
    {
        self.elapsed == self.total
    }

    /// Consume the next tick.  While ticks remain, each call hands out the
    /// next tick number in order; once the countdown is complete it returns
    /// `None` and changes nothing.
    pub fn next_tick(&mut self) -> (r: Option<u64>)
        requires
            old(self).wf(),
        ensures
            final(self).wf(),
            final(self).total == old(self).total,
            old(self).spec_is_complete() ==> r is None && *final(self) == *old(self),
            !old(self).spec_is_complete() ==> {
                &&& final(self).elapsed == old(self).elapsed + 1
                &&& r == Some((old(self).elapsed + 1) as u64)
                &&& final(self).delivered() =~= old(self).delivered().push(
                    old(self).elapsed + 1,
                )
            },
    {
        if self.elapsed < self.total {
            self.elapsed = self.elapsed + 1;
            Some(self.elapsed)
        } else {
            None
        }
    }
}

/// For every completed countdown, the ticks handed out are exactly
/// 1, 2, ..., total: one per second of the requested duration, strictly
/// increasing, with no duplicates and no gaps.
pub proof fn lemma_complete_countdown_delivery(c: Countdown)
    requires
        c.wf(),
        c.spec_is_complete(),
    ensures
        c.delivered().len() == c.total,
        forall|i: int| 0 <= i < c.delivered().len() ==> c.delivered()[i] == i + 1,
        forall|i: int, j: int|
            0 <= i < j < c.delivered().len() ==> c.delivered()[i] < c.delivered()[j],
{
}

/// A countdown over zero ticks hands out nothing and is complete from the
/// start, so the engine proceeds straight to the completion actions.
pub proof fn lemma_zero_total_completes_immediately(c: Countdown)
    requires
        c.wf(),
        c.total == 0,
    ensures
        c.spec_is_complete(),
        c.delivered() =~= Seq::<int>::empty(),
{
}

} // verus!
