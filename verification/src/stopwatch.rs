//! The stopwatch: elapsed time, the laps recorded, and the overlay that lists them.

use vstd::prelude::*;

use crate::duration::{max_nanos, Duration};
use crate::types::StopwatchState;

verus! {

/// The sum of a sequence of spans.
pub open spec fn total(laps: Seq<nat>) -> nat
    decreases laps.len(),
{
    if laps.len() == 0 {
        0
    } else {
        total(laps.drop_last()) + laps.last()
    }
}

/// The spans of a list of durations, in nanoseconds.
pub open spec fn spans(ds: Seq<Duration>) -> Seq<nat> {
    ds.map_values(|d: Duration| d@)
}

/// The total of a prefix never exceeds the total of the whole sequence.
pub proof fn lemma_total_prefix(s: Seq<nat>, i: int)
    requires
        0 <= i <= s.len(),
    ensures
        total(s.take(i)) <= total(s),
    decreases s.len(),
{
    if i < s.len() {
        assert(s.take(i) =~= s.drop_last().take(i));
        lemma_total_prefix(s.drop_last(), i);
    } else {
        assert(s.take(i) =~= s);
    }
}

/// Adding one more span to the end adds it to the total.
pub proof fn lemma_total_push(s: Seq<nat>, x: nat)
    ensures
        total(s.push(x)) == total(s) + x,
{
    assert(s.push(x).drop_last() =~= s);
}

/// The stopwatch as a mathematical value; spans are in nanoseconds.
pub ghost struct StopwatchView {
    pub state: StopwatchState,
    pub elapsed: nat,
    pub laps: Seq<nat>,
    pub overlay_open: bool,
    pub scroll_index: nat,
}

impl StopwatchView {
    /// The idle stopwatch: nothing elapsed, no laps, overlay closed.
    pub open spec fn initial() -> StopwatchView {
        StopwatchView {
            state: StopwatchState::Idle,
            elapsed: 0,
            laps: Seq::empty(),
            overlay_open: false,
            scroll_index: 0,
        }
    }

    /// What the stopwatch keeps at every moment: the laps add up to no more than the elapsed
    /// time, a closed overlay is scrolled to the top, and the scroll position names a lap.
    pub open spec fn wf(self) -> bool {
        &&& total(self.laps) <= self.elapsed
        &&& self.elapsed <= max_nanos()
        &&& !self.overlay_open ==> self.scroll_index == 0
        &&& (self.scroll_index == 0 || self.scroll_index < self.laps.len())
    }

    pub open spec fn is_running(self) -> bool {
        self.state == StopwatchState::Running
    }

    /// The time since the last recorded lap.
    pub open spec fn current_lap(self) -> nat {
        if total(self.laps) <= self.elapsed {
            (self.elapsed - total(self.laps)) as nat
        } else {
            0
        }
    }

    /// Space bar: idle or paused starts running, running pauses.
    pub open spec fn toggled(self) -> StopwatchView {
        match self.state {
            StopwatchState::Running => StopwatchView { state: StopwatchState::Paused, ..self },
            _ => StopwatchView { state: StopwatchState::Running, ..self },
        }
    }

    /// The stopwatch after `delta` nanoseconds: only a running one counts.
    pub open spec fn ticked(self, delta: nat) -> StopwatchView {
        if self.is_running() {
            StopwatchView { elapsed: self.elapsed + delta, ..self }
        } else {
            self
        }
    }

    /// `l`: a running stopwatch records the current lap.
    pub open spec fn lapped(self) -> StopwatchView {
        if self.is_running() {
            StopwatchView { laps: self.laps.push(self.current_lap()), ..self }
        } else {
            self
        }
    }

    /// `r`: a stopwatch that is not running goes back to the initial one.
    pub open spec fn reset_to(self) -> StopwatchView {
        if self.is_running() {
            self
        } else {
            StopwatchView::initial()
        }
    }

    /// Enter: opens or closes the lap overlay when not running; closing scrolls back to the top.
    pub open spec fn overlay_toggled(self) -> StopwatchView {
        if self.is_running() {
            self
        } else if self.overlay_open {
            StopwatchView { overlay_open: false, scroll_index: 0, ..self }
        } else {
            StopwatchView { overlay_open: true, ..self }
        }
    }

    /// Up: in the open overlay, one lap up unless at the top.
    pub open spec fn scrolled_up(self) -> StopwatchView {
        if self.overlay_open && self.scroll_index > 0 {
            StopwatchView { scroll_index: (self.scroll_index - 1) as nat, ..self }
        } else {
            self
        }
    }

    /// Down: in the open overlay, one lap down unless at the last lap.
    pub open spec fn scrolled_down(self) -> StopwatchView {
        if self.overlay_open && self.laps.len() > 0 && self.scroll_index < self.laps.len() - 1 {
            StopwatchView { scroll_index: self.scroll_index + 1, ..self }
        } else {
            self
        }
    }
}

/// The stopwatch.
#[derive(Debug)]
pub struct StopwatchModeState {
    state: StopwatchState,
    elapsed: Duration,
    laps: Vec<Duration>,
    overlay_open: bool,
    scroll_index: usize,
}

impl View for StopwatchModeState {
    type V = StopwatchView;

    closed spec fn view(&self) -> StopwatchView {
        StopwatchView {
            state: self.state,
            elapsed: self.elapsed@,
            laps: spans(self.laps@),
            overlay_open: self.overlay_open,
            scroll_index: self.scroll_index as nat,
        }
    }
}

impl Default for StopwatchModeState {
    /// The idle stopwatch.
    fn default() -> (s: Self)
        ensures
            s@ == StopwatchView::initial(),
    {
        let s = StopwatchModeState {
            state: StopwatchState::Idle,
            elapsed: Duration::zero(),
            laps: Vec::new(),
            overlay_open: false,
            scroll_index: 0,
        };
        assert(spans(s.laps@) =~= Seq::<nat>::empty());
        s
    }
}

impl StopwatchModeState {
    #[verifier::type_invariant]
    spec fn inv(self) -> bool {
        self@.wf()
    }

    /// Starts an idle or paused stopwatch, pauses a running one.
    pub fn toggle(&mut self)
        ensures
            final(self)@ == old(self)@.toggled(),
            final(self)@.wf(),
    {
        proof { use_type_invariant(&*self); }
        self.state = match self.state {
            StopwatchState::Running => StopwatchState::Paused,
            StopwatchState::Paused => StopwatchState::Running,
            StopwatchState::Idle => StopwatchState::Running,
        };
    }

    /// Adds `delta` to the elapsed time of a running stopwatch.
    pub fn tick(&mut self, delta: Duration)
        requires
            old(self)@.is_running() ==> old(self)@.elapsed + delta@ <= max_nanos(),
        ensures
            final(self)@ == old(self)@.ticked(delta@),
            final(self)@.wf(),
    {
        proof { use_type_invariant(&*self); }
        if !self.is_running() {
            return;
        }
        match self.elapsed.checked_add(delta) {
            Some(sum) => {
                self.elapsed = sum;
            },
            None => {},
        }
    }

    /// Records the current lap of a running stopwatch.
    pub fn record_lap(&mut self)
        ensures
            final(self)@ == old(self)@.lapped(),
            final(self)@.wf(),
    {
        proof { use_type_invariant(&*self); }
        if !self.is_running() {
            return;
        }
        let lap = self.current_lap_time();
        proof {
            lemma_total_push(self@.laps, lap@);
        }
        let mut previous = StopwatchModeState::default();
        std::mem::swap(self, &mut previous);
        let StopwatchModeState { state, elapsed, mut laps, overlay_open, scroll_index } = previous;
        let ghost old_laps = laps@;
        laps.push(lap);
        assert(spans(laps@) =~= spans(old_laps).push(lap@));
        *self = StopwatchModeState { state, elapsed, laps, overlay_open, scroll_index };
    }

    /// The time since the last recorded lap: the elapsed time less the laps.
    pub fn current_lap_time(&self) -> (d: Duration)
        ensures
            d@ == self@.current_lap(),
            d@ + total(self@.laps) == self@.elapsed,
    {
        proof { use_type_invariant(self); }
        let mut sum = Duration::zero();
        let mut i: usize = 0;
        let ghost all = self@.laps;
        assert(all.take(0) =~= Seq::<nat>::empty());
        while i < self.laps.len()
            invariant
                self@.wf(),
                all == self@.laps,
                all == spans(self.laps@),
                i <= self.laps.len(),
                sum@ == total(all.take(i as int)),
            decreases self.laps.len() - i,
        {
            proof {
                assert(all.take(i + 1).drop_last() =~= all.take(i as int));
                lemma_total_prefix(all, i + 1);
            }
            match sum.checked_add(self.laps[i]) {
                Some(s) => {
                    sum = s;
                },
                None => {},
            }
            i = i + 1;
        }
        assert(all.take(i as int) =~= all);
        match self.elapsed.checked_sub(sum) {
            Some(d) => d,
            None => Duration::zero(),
        }
    }

    /// The recorded laps, oldest first.
    pub fn laps(&self) -> (l: &[Duration])
        ensures
            spans(l@) == self@.laps,
    {
        self.laps.as_slice()
    }

    /// Whether the stopwatch counts.
    pub fn is_running(&self) -> (r: bool)
        ensures
            r == self@.is_running(),
    {
        self.state == StopwatchState::Running
    }

    /// The elapsed time.
    pub fn elapsed(&self) -> (d: Duration)
        ensures
            d@ == self@.elapsed,
    {
        self.elapsed
    }

    /// The state of the stopwatch.
    pub fn state(&self) -> (s: &StopwatchState)
        ensures
            *s == self@.state,
    {
        &self.state
    }

    /// Clears the stopwatch back to idle, unless it is running.
    pub fn reset(&mut self)
        ensures
            final(self)@ == old(self)@.reset_to(),
            final(self)@.wf(),
    {
        proof { use_type_invariant(&*self); }
        if self.is_running() {
            return;
        }
        *self = Self::default();
    }

    /// Opens or closes the lap overlay of a stopwatch that is not running.
    pub fn toggle_overlay(&mut self)
        ensures
            final(self)@ == old(self)@.overlay_toggled(),
            final(self)@.wf(),
    {
        proof { use_type_invariant(&*self); }
        if self.is_running() {
            return;
        }
        if self.overlay_open {
            self.scroll_index = 0;
            self.overlay_open = false;
        } else {
            self.overlay_open = true;
        }
    }

    /// Moves the overlay selection one lap up.
    pub fn scroll_up(&mut self)
        ensures
            final(self)@ == old(self)@.scrolled_up(),
            final(self)@.wf(),
    {
        proof { use_type_invariant(&*self); }
        if self.overlay_open && self.scroll_index > 0 {
            self.scroll_index = self.scroll_index - 1;
        }
    }

    /// Moves the overlay selection one lap down.
    pub fn scroll_down(&mut self)
        ensures
            final(self)@ == old(self)@.scrolled_down(),
            final(self)@.wf(),
    {
        proof { use_type_invariant(&*self); }
        if self.overlay_open && self.laps.len() > 0 && self.scroll_index < self.laps.len() - 1 {
            self.scroll_index = self.scroll_index + 1;
        }
    }

    /// Whether the lap overlay is open.
    pub fn is_overlay_open(&self) -> (b: bool)
        ensures
            b == self@.overlay_open,
    {
        self.overlay_open
    }

    /// The lap selected in the overlay.
    pub fn scroll_index(&self) -> (i: usize)
        ensures
            i == self@.scroll_index,
    {
        self.scroll_index
    }
}

} // verus!
