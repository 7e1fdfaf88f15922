//! Frame pacing on a clock that the caller reads: how long the last frame
//! took, and once a second how many frames there were. Times are nanoseconds
//! on a clock that does not run backwards.

use vstd::prelude::*;

verus! {

/// The nanoseconds of a second: the span after which the frames are reported.
pub const SECOND: u64 = 1_000_000_000;

/// The frame time that is assumed before a frame has been measured.
pub const FIRST_DELTA: u64 = 16_000_000;

/// The time from `earlier` to `later`, and none if `earlier` is not earlier.
pub open spec fn since(later: nat, earlier: nat) -> nat {
    if later >= earlier {
        (later - earlier) as nat
    } else {
        0
    }
}

/// What a [`FrameCounter`] stands for.
pub struct CounterModel {
    /// When the last frame ended.
    pub last: nat,
    /// How long the last frame took.
    pub last_delta: nat,
    /// When the frames were last reported.
    pub last_fps_logged: nat,
    /// The frames since then.
    pub frame_counter: nat,
}

impl CounterModel {
    /// A counter started at `now`.
    pub open spec fn started(now: nat) -> CounterModel {
        CounterModel {
            last: now,
            last_delta: FIRST_DELTA as nat,
            last_fps_logged: now,
            frame_counter: 0,
        }
    }

    /// A frame that ends at `now` completes a second since the last report.
    pub open spec fn is_due(self, now: nat) -> bool {
        since(now, self.last_fps_logged) >= SECOND
    }

    /// The number of frames to report for the frame that ends at `now`: the
    /// frames since the last report, this one included, once a second is
    /// complete.
    pub open spec fn report(self, now: nat) -> Option<nat> {
        if self.is_due(now) {
            Some(self.frame_counter + 1)
        } else {
            None
        }
    }

    /// The counter after the frame that ends at `now`.
    pub open spec fn tick(self, now: nat) -> CounterModel {
        CounterModel {
            last: now,
            last_delta: since(now, self.last),
            last_fps_logged: if self.is_due(now) {
                self.last_fps_logged + since(now, self.last_fps_logged)
            } else {
                self.last_fps_logged
            },
            frame_counter: if self.is_due(now) {
                0
            } else {
                self.frame_counter + 1
            },
        }
    }

    /// The counter after frames that end at `times`, first to last.
    pub open spec fn replay(self, times: Seq<nat>) -> CounterModel
        decreases times.len(),
    {
        if times.len() == 0 {
            self
        } else {
            self.replay(times.drop_last()).tick(times.last())
        }
    }

    /// The frames that were reported in all over the frames that end at
    /// `times`.
    pub open spec fn reported(self, times: Seq<nat>) -> nat
        decreases times.len(),
    {
        if times.len() == 0 {
            0
        } else {
            self.reported(times.drop_last()) + match self.replay(times.drop_last()).report(
                times.last(),
            ) {
                Some(frames) => frames,
                None => 0,
            }
        }
    }

    /// Every frame is counted once: what was reported and what is still
    /// held add up to the frames there were.
    pub proof fn lemma_every_frame_counts(self, times: Seq<nat>)
        ensures
            self.reported(times) + self.replay(times).frame_counter == self.frame_counter
                + times.len(),
        decreases times.len(),
    {
        if times.len() > 0 {
            self.lemma_every_frame_counts(times.drop_last());
        }
    }

    /// On a clock that does not run backwards, a report moves the mark to
    /// the present, so that the next one is a full second away.
    pub proof fn lemma_report_moves_the_mark(self, now: nat, next: nat)
        requires
            self.is_due(now),
            next < now + SECOND,
        ensures
            self.tick(now).last_fps_logged == now,
            self.tick(now).frame_counter == 0,
            self.tick(now).report(next) is None,
    {
    }
}

/// Measures frames and counts them.
pub struct FrameCounter {
    last: u64,
    last_delta: u64,
    last_fps_logged: u64,
    frame_counter: i32,
}

impl View for FrameCounter {
    type V = CounterModel;

    closed spec fn view(&self) -> CounterModel {
        CounterModel {
            last: self.last as nat,
            last_delta: self.last_delta as nat,
            last_fps_logged: self.last_fps_logged as nat,
            frame_counter: if self.frame_counter >= 0 {
                self.frame_counter as nat
            } else {
                0
            },
        }
    }
}

impl FrameCounter {
    #[verifier::type_invariant]
    spec fn inv(self) -> bool {
        self.frame_counter >= 0
    }

    /// A counter started at `now`.
    pub fn new(now: u64) -> (counter: FrameCounter)
        ensures
            counter@ == CounterModel::started(now as nat),
    {
        FrameCounter { last: now, last_delta: FIRST_DELTA, last_fps_logged: now, frame_counter: 0 }
    }

    /// Tells whether the count has room for one more frame.
    pub fn can_tick(&self) -> (room: bool)
        ensures
            room == (self@.frame_counter < i32::MAX),
    {
        proof {
            use_type_invariant(self);
        }
        self.frame_counter < i32::MAX
    }

    /// Ends a frame at `now`. Tells how many frames to report, once a second
    /// since the last report is complete; the count then starts again.
    pub fn tick(&mut self, now: u64) -> (fps: Option<i32>)
        requires
            old(self)@.frame_counter < i32::MAX,
        ensures
            final(self)@ == old(self)@.tick(now as nat),
            match fps {
                Some(frames) => old(self)@.report(now as nat) == Some(frames as nat) && frames > 0,
                None => old(self)@.report(now as nat) is None,
            },
    {
        proof {
            use_type_invariant(&*self);
        }
        // Increment the counter for the FPS logging and store the elapsed delta
        self.frame_counter += 1;
        self.last_delta = now.saturating_sub(self.last);
        self.last = now;

        // Keep track of the FPS and report it every second
        let elapsed_since_logged = now.saturating_sub(self.last_fps_logged);
        if elapsed_since_logged >= SECOND {
            let frames = self.frame_counter;
            self.frame_counter = 0;
            self.last_fps_logged += elapsed_since_logged;
            Some(frames)
        } else {
            None
        }
    }

    /// The nanoseconds that the last frame took.
    pub fn delta(&self) -> (nanos: u64)
        ensures
            nanos == self@.last_delta,
    {
        self.last_delta
    }
}

} // verus!
