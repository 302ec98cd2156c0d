//! Spacing of saves: a burst of changes leads to one save.
//!
//! Every change of the settings raises a trigger. Triggers are not queued.
//! The first trigger of a burst marks a save as pending and opens a window of
//! the length of the spacing; the triggers that follow within it change
//! nothing. The pending save is carried out at the first poll that comes no
//! earlier than the end of the window, and it saves the settings as they are
//! then. Time is counted in milliseconds from a start that the caller chooses.

use vstd::prelude::*;

verus! {

/// The least time between two saves, in milliseconds.
pub const SAVE_SPACING: u64 = 5000;

/// The abstract value of a [`SaveThrottle`].
pub struct ThrottleView {
    /// Whether a save is pending.
    pub pending: bool,
    /// The earliest time at which the next save may be carried out.
    pub not_before: u64,
}

/// Something that happens to the throttle.
pub enum Tick {
    /// The settings changed at this time.
    Trigger(u64),
    /// The caller asks at this time whether to save.
    Poll(u64),
}

/// The time at which a save is next allowed after one at `now`.
pub open spec fn next_allowed(now: u64) -> u64 {
    if now + SAVE_SPACING > u64::MAX {
        u64::MAX
    } else {
        (now + SAVE_SPACING) as u64
    }
}

impl ThrottleView {
    /// The throttle at the start: nothing pending, no save made yet.
    pub open spec fn idle() -> ThrottleView {
        ThrottleView { pending: false, not_before: 0 }
    }

    /// The throttle after a trigger at `now`. Where nothing is pending the
    /// trigger opens a window: no save before the spacing has passed. Where
    /// a save is pending already, nothing changes.
    pub open spec fn triggered(self, now: u64) -> ThrottleView {
        if self.pending {
            self
        } else if next_allowed(now) > self.not_before {
            ThrottleView { pending: true, not_before: next_allowed(now) }
        } else {
            ThrottleView { pending: true, not_before: self.not_before }
        }
    }

    /// Whether a poll at `now` saves.
    pub open spec fn saves_at(self, now: u64) -> bool {
        self.pending && now >= self.not_before
    }

    /// The throttle after a poll at `now`.
    pub open spec fn polled(self, now: u64) -> ThrottleView {
        if self.saves_at(now) {
            ThrottleView { pending: false, not_before: next_allowed(now) }
        } else {
            self
        }
    }

    /// The throttle after `tick`.
    pub open spec fn after(self, tick: Tick) -> ThrottleView {
        match tick {
            Tick::Trigger(now) => self.triggered(now),
            Tick::Poll(now) => self.polled(now),
        }
    }

    /// The throttle after all of `ticks`, in order.
    pub open spec fn after_all(self, ticks: Seq<Tick>) -> ThrottleView
        decreases ticks.len(),
    {
        if ticks.len() == 0 {
            self
        } else {
            self.after_all(ticks.drop_last()).after(ticks.last())
        }
    }

    /// The number of saves that `ticks` lead to, starting from this throttle.
    pub open spec fn saves_during(self, ticks: Seq<Tick>) -> nat
        decreases ticks.len(),
    {
        if ticks.len() == 0 {
            0
        } else {
            let before = self.after_all(ticks.drop_last());
            let last: nat = match ticks.last() {
                Tick::Poll(now) => if before.saves_at(now) {
                    1
                } else {
                    0
                },
                Tick::Trigger(_) => 0,
            };
            self.saves_during(ticks.drop_last()) + last
        }
    }
}

/// Whether every poll among `ticks` comes before `limit`.
pub open spec fn polls_before(ticks: Seq<Tick>, limit: u64) -> bool {
    forall|i: int|
        0 <= i < ticks.len() ==> (#[trigger] ticks[i] matches Tick::Poll(now) ==> now < limit)
}

/// Decides when the settings are saved.
#[derive(Debug)]
pub struct SaveThrottle {
    pending: bool,
    not_before: u64,
}

impl View for SaveThrottle {
    type V = ThrottleView;

    closed spec fn view(&self) -> ThrottleView {
        ThrottleView { pending: self.pending, not_before: self.not_before }
    }
}

impl SaveThrottle {
    /// A throttle with nothing pending and no save made yet.
    pub fn new() -> (throttle: SaveThrottle)
        ensures
            throttle@ == ThrottleView::idle(),
    {
        SaveThrottle { pending: false, not_before: 0 }
    }

    /// The settings changed at time `now`: a save is now pending, no earlier
    /// than the spacing after the first trigger since the last save.
    pub fn trigger(&mut self, now: u64)
        ensures
            final(self)@ == old(self)@.triggered(now),
    {
        if !self.pending {
            self.pending = true;
            let end = now.saturating_add(SAVE_SPACING);
            if end > self.not_before {
                self.not_before = end;
            }
        }
    }

    /// The time to poll at next: the earliest time at which the pending save
    /// may be carried out, or `None` where no save is pending.
    pub fn wake_at(&self) -> (time: Option<u64>)
        ensures
            time == (if self@.pending {
                Some(self@.not_before)
            } else {
                None
            }),
    {
        if self.pending {
            Some(self.not_before)
        } else {
            None
        }
    }

    /// Asks at time `now` whether to save. Where the answer is yes the caller
    /// saves the settings as they are now, and no save is pending any more.
    pub fn poll(&mut self, now: u64) -> (save: bool)
        ensures
            save == old(self)@.saves_at(now),
            final(self)@ == old(self)@.polled(now),
    {
        if self.pending && now >= self.not_before {
            self.pending = false;
            self.not_before = now.saturating_add(SAVE_SPACING);
            true
        } else {
            false
        }
    }
}

/// While a save is pending and every poll comes before the end of the
/// window, nothing is saved and nothing changes.
pub proof fn lemma_window_holds(opened: ThrottleView, ticks: Seq<Tick>)
    requires
        opened.pending,
        polls_before(ticks, opened.not_before),
    ensures
        opened.saves_during(ticks) == 0,
        opened.after_all(ticks) == opened,
    decreases ticks.len(),
{
    if ticks.len() > 0 {
        let front = ticks.drop_last();
        assert forall|i: int| 0 <= i < front.len() implies (#[trigger] front[i] matches Tick::Poll(
            now,
        ) ==> now < opened.not_before) by {
            assert(front[i] == ticks[i]);
        }
        lemma_window_holds(opened, front);
        assert(ticks.last() == ticks[ticks.len() - 1]);
    }
}

/// Any number of triggers within one window lead to exactly one save.
///
/// Take any throttle and a trigger at `first`. The window that is then open
/// ends no earlier than the spacing after `first`. Whatever triggers and
/// polls come within it, nothing is saved within the window; the first poll
/// at or after its end saves, once, and so after the last of the triggers;
/// and no later poll saves again until there is a new trigger.
pub proof fn lemma_burst_saves_once(
    start: ThrottleView,
    first: u64,
    ticks: Seq<Tick>,
    end: u64,
    later: u64,
)
    requires
        polls_before(ticks, start.triggered(first).not_before),
        end >= start.triggered(first).not_before,
    ensures
        !start.pending ==> start.triggered(first).not_before >= next_allowed(first),
        start.triggered(first).saves_during(ticks) == 0,
        start.triggered(first).after_all(ticks).saves_at(end),
        start.triggered(first).saves_during(ticks.push(Tick::Poll(end))) == 1,
        !start.triggered(first).after_all(ticks).polled(end).pending,
        !start.triggered(first).after_all(ticks).polled(end).saves_at(later),
        start.triggered(first).saves_during(ticks.push(Tick::Poll(end)).push(Tick::Poll(later)))
            == 1,
{
    let opened = start.triggered(first);
    lemma_window_holds(opened, ticks);
    let once = ticks.push(Tick::Poll(end));
    assert(once.drop_last() =~= ticks);
    assert(once.last() == Tick::Poll(end));
    let twice = once.push(Tick::Poll(later));
    assert(twice.drop_last() =~= once);
    assert(twice.last() == Tick::Poll(later));
    assert(opened.after_all(once) == opened.after_all(ticks).polled(end));
    assert(opened.saves_during(once) == opened.saves_during(ticks) + 1);
    assert(!opened.after_all(once).saves_at(later));
    assert(opened.saves_during(twice) == opened.saves_during(once) + 0);
}

/// Two saves are never closer than the spacing.
///
/// After a save at `first`, whatever triggers and polls follow, a later poll
/// saves only at or after the time that the spacing allows.
pub proof fn lemma_saves_are_spaced(start: ThrottleView, first: u64, ticks: Seq<Tick>, second: u64)
    requires
        start.saves_at(first),
        start.polled(first).after_all(ticks).saves_at(second),
    ensures
        second >= next_allowed(first),
        first + SAVE_SPACING <= u64::MAX ==> second - first >= SAVE_SPACING,
{
    lemma_time_moves_on(start.polled(first), ticks);
}

/// The time at which a save is allowed never moves back.
pub proof fn lemma_time_moves_on(start: ThrottleView, ticks: Seq<Tick>)
    ensures
        start.after_all(ticks).not_before >= start.not_before,
    decreases ticks.len(),
{
    if ticks.len() > 0 {
        lemma_time_moves_on(start, ticks.drop_last());
    }
}

} // verus!
