//! The frame accumulator: frame counting, time debt, and send cadence.

use vstd::prelude::*;

use crate::duration::NANOS_PER_SEC;
use crate::duration::NetDuration;

verus! {

/// Default number of ticks executed per minute.
pub const DEFAULT_TICKS_PER_MIN: u32 = 100;

/// Number of seconds in one minute.
pub const SECS_PER_MIN: u64 = 60;

/// A contiguous, inclusive block of frame numbers, possibly empty.
///
/// Its mathematical view is the sequence of frame numbers it holds, in
/// increasing order. Emptiness is explicit: an empty block views to the empty
/// sequence and never names a frame.
#[derive(Clone, Copy, Debug, PartialEq, Eq, Structural)]
pub struct FrameRange {
    start: u32,
    count: u32,
}

impl View for FrameRange {
    type V = Seq<int>;

    closed spec fn view(&self) -> Seq<int> {
        Seq::new(self.count as nat, |i: int| self.start + i)
    }
}

impl FrameRange {
    /// Every frame number in the block fits in `u32`.
    pub open spec fn wf(&self) -> bool {
        self@.len() == 0 || self@.last() <= u32::MAX
    }

    /// True iff the block names no frame at all.
    pub fn is_empty(&self) -> (r: bool)
        ensures
            r == (self@.len() == 0),
    {
        self.count == 0
    }

    /// How many frames the block names.
    pub fn len(&self) -> (r: u32)
        ensures
            r == self@.len(),
    {
        self.count
    }

    /// The first frame number of a non-empty block.
    pub fn start(&self) -> (r: u32)
        requires
            self@.len() > 0,
        ensures
            r == self@.first(),
    {
        self.start
    }

    /// The last frame number of a non-empty block.
    pub fn end(&self) -> (r: u32)
        requires
            self@.len() > 0,
            self.wf(),
        ensures
            r == self@.last(),
    {
        self.start + (self.count - 1)
    }

    /// True iff `frame` is one of the frame numbers in the block.
    pub fn contains(&self, frame: u32) -> (r: bool)
        ensures
            r == self@.contains(frame as int),
    {
        if frame >= self.start && frame - self.start < self.count {
            proof {
                assert(self@[frame - self.start] == frame as int);
            }
            true
        } else {
            proof {
                assert(forall|i: int| 0 <= i < self@.len() ==> self@[i] != frame as int);
            }
            false
        }
    }

    /// The frame numbers of the block, in increasing order.
    pub fn to_vec(&self) -> (r: Vec<u32>)
        requires
            self.wf(),
        ensures
            r@.len() == self@.len(),
            forall|i: int| 0 <= i < r@.len() ==> r@[i] == self@[i],
    {
        let mut out: Vec<u32> = Vec::new();
        let mut k: u32 = 0;
        while k < self.count
            invariant
                self.wf(),
                k <= self.count,
                out@.len() == k as nat,
                forall|i: int| 0 <= i < k ==> out@[i] == self@[i],
            decreases self.count - k,
        {
            proof {
                assert(self@.last() == self.start + self.count - 1);
            }
            out.push(self.start + k);
            k = k + 1;
        }
        out
    }
}

/// Mathematical state of a [`NetworkTime`]: each field of the accumulator as
/// an unbounded integer, with durations measured in nanoseconds.
pub ghost struct TimeModel {
    pub frame_number: int,
    pub elapsed_nanos: int,
    pub per_frame_nanos: int,
    pub message_send_rate: int,
    pub frame_lag: int,
}

/// Whether a message is due on frame `frame` under cadence `rate`: every
/// `rate`-th frame, aligned to frame number 0.
pub open spec fn send_on_frame(frame: int, rate: int) -> bool
    recommends
        1 <= rate,
{
    frame % rate == 0
}

/// One frame advance: the frame counter and the lag each grow by one, one
/// frame's worth of banked time is spent, and the configuration is untouched.
pub open spec fn advance_step(pre: TimeModel, post: TimeModel) -> bool {
    &&& post.frame_number == pre.frame_number + 1
    &&& post.frame_lag == pre.frame_lag + 1
    &&& post.elapsed_nanos == pre.elapsed_nanos - pre.per_frame_nanos
    &&& post.per_frame_nanos == pre.per_frame_nanos
    &&& post.message_send_rate == pre.message_send_rate
}

/// One deposit of `added` nanoseconds of wall-clock time: the banked time
/// grows by exactly `added` and every other field is untouched.
pub open spec fn elapsed_step(pre: TimeModel, post: TimeModel, added: int) -> bool {
    &&& post.elapsed_nanos == pre.elapsed_nanos + added
    &&& post.frame_number == pre.frame_number
    &&& post.frame_lag == pre.frame_lag
    &&& post.per_frame_nanos == pre.per_frame_nanos
    &&& post.message_send_rate == pre.message_send_rate
}

/// Sum of a sequence of nanosecond amounts.
pub open spec fn total_nanos(ds: Seq<int>) -> int
    decreases ds.len(),
{
    if ds.len() == 0 {
        0
    } else {
        total_nanos(ds.drop_last()) + ds.last()
    }
}

/// Tracks the state of network time separately from the host loop's own
/// frame timing.
///
/// The host loop deposits measured wall-clock time with
/// [`update_elapsed`](NetworkTime::update_elapsed), drains it one fixed-size
/// frame at a time with
/// [`increment_frame_number`](NetworkTime::increment_frame_number), and asks
/// [`network_frames_to_run`](NetworkTime::network_frames_to_run) which frame
/// numbers it still owes to the simulation.
#[derive(Clone, Copy, Debug, PartialEq, Eq, Structural)]
pub struct NetworkTime {
    /// The current frame.
    frame_number: u32,
    /// Accumulated duration since the last frame was consumed.
    elapsed_duration: NetDuration,
    /// Duration per frame.
    per_frame_duration: NetDuration,
    /// Send a message every N frames, where N is this rate.
    message_send_rate: u8,
    /// Number of frames the simulation is behind; usually 0 or 1 when the
    /// simulation keeps up.
    frame_lag: u32,
}

impl View for NetworkTime {
    type V = TimeModel;

    closed spec fn view(&self) -> TimeModel {
        TimeModel {
            frame_number: self.frame_number as int,
            elapsed_nanos: self.elapsed_duration@,
            per_frame_nanos: self.per_frame_duration@,
            message_send_rate: self.message_send_rate as int,
            frame_lag: self.frame_lag as int,
        }
    }
}

impl NetworkTime {
    /// Configuration invariant: the send cadence is at least one and a frame
    /// has a strictly positive length. Default construction establishes it,
    /// and every method preserves it.
    pub open spec fn wf(&self) -> bool {
        &&& 1 <= self@.message_send_rate
        &&& 0 < self@.per_frame_nanos
    }

    /// Returns the frame numbers needed to be run this game frame: the
    /// `frame_lag` consecutive frames ending at the current frame, and an
    /// explicitly empty block when the lag is zero.
    pub fn network_frames_to_run(&self) -> (r: FrameRange)
        requires
            self@.frame_lag <= self@.frame_number + 1,
        ensures
            r.wf(),
            r@.len() == self@.frame_lag,
            forall|i: int| 0 <= i < r@.len() ==> r@[i] == self@.frame_number - self@.frame_lag
                + 1 + i,
            self@.frame_lag == 0 ==> r@ =~= Seq::<int>::empty(),
    {
        if self.frame_lag == 0 {
            FrameRange { start: self.frame_number, count: 0 }
        } else {
            FrameRange { start: self.frame_number - (self.frame_lag - 1), count: self.frame_lag }
        }
    }

    /// Determines whether a message should be sent in the current frame,
    /// based on the send cadence.
    pub fn should_send_message_now(&self) -> (r: bool)
        requires
            1 <= self@.message_send_rate,
        ensures
            r == send_on_frame(self@.frame_number, self@.message_send_rate),
    {
        self.should_send_message(self.frame_number)
    }

    /// Determines whether a message should be sent on frame `frame`, based on
    /// the send cadence: true iff `frame` is a multiple of the cadence.
    pub fn should_send_message(&self, frame: u32) -> (r: bool)
        requires
            1 <= self@.message_send_rate,
        ensures
            r == send_on_frame(frame as int, self@.message_send_rate),
    {
        frame % (self.message_send_rate as u32) == 0
    }

    /// Bumps the frame number and the frame lag by one and spends exactly one
    /// frame's worth of banked time.
    pub fn increment_frame_number(&mut self)
        requires
            old(self)@.frame_number < u32::MAX,
            old(self)@.frame_lag < u32::MAX,
            old(self)@.per_frame_nanos <= old(self)@.elapsed_nanos,
        ensures
            advance_step(old(self)@, final(self)@),
    {
        self.frame_number = self.frame_number + 1;
        let remaining: u128 = self.elapsed_duration.as_nanos() - self.per_frame_duration.as_nanos();
        self.elapsed_duration = NetDuration::from_nanos(remaining);
        self.frame_lag = self.frame_lag + 1;
    }

    /// Resets the frame lag to zero; nothing else changes.
    pub fn reset_frame_lag(&mut self)
        ensures
            final(self)@ == (TimeModel { frame_lag: 0, ..old(self)@ }),
    {
        self.frame_lag = 0;
    }

    /// Increases the banked elapsed time by exactly `duration`; nothing else
    /// changes.
    pub fn update_elapsed(&mut self, duration: NetDuration)
        requires
            old(self)@.elapsed_nanos + duration@ <= u128::MAX,
        ensures
            elapsed_step(old(self)@, final(self)@, duration@),
    {
        let total: u128 = self.elapsed_duration.as_nanos() + duration.as_nanos();
        self.elapsed_duration = NetDuration::from_nanos(total);
    }

    /// Returns the current frame number.
    pub fn frame_number(&self) -> (r: u32)
        ensures
            r == self@.frame_number,
    {
        self.frame_number
    }

    /// Sets the frame number to the given frame number, for instance when
    /// synchronizing frames with a server; the banked time and the frame lag
    /// are untouched.
    pub fn set_frame_number(&mut self, new_frame: u32)
        ensures
            final(self)@ == (TimeModel { frame_number: new_frame as int, ..old(self)@ }),
    {
        self.frame_number = new_frame;
    }

    /// Returns the total banked duration since the last frame was consumed.
    pub fn elapsed_duration(&self) -> (r: NetDuration)
        ensures
            r@ == self@.elapsed_nanos,
    {
        self.elapsed_duration
    }

    /// Returns the duration of one frame, as computed when a frame rate was
    /// last set.
    pub fn per_frame_duration(&self) -> (r: NetDuration)
        ensures
            r@ == self@.per_frame_nanos,
    {
        self.per_frame_duration
    }

    /// Returns the rate at which messages should be sent over the network:
    /// every N frames, where N is the returned rate.
    pub fn message_send_rate(&self) -> (r: u8)
        ensures
            r == self@.message_send_rate,
    {
        self.message_send_rate
    }

    /// Returns the number of frames the simulation is behind.
    pub fn frame_lag(&self) -> (r: u32)
        ensures
            r == self@.frame_lag,
    {
        self.frame_lag
    }

    /// Sets the rate at which network frames progress, in hertz: one frame
    /// then lasts exactly one second divided by `new_rate`, rounded down to
    /// whole nanoseconds. Rates above one frame per nanosecond would truncate
    /// to a zero-length frame and are ruled out.
    pub fn set_network_frame_rate(&mut self, new_rate: u32)
        requires
            1 <= new_rate,
            new_rate <= NANOS_PER_SEC,
        ensures
            final(self)@ == (TimeModel {
                per_frame_nanos: NANOS_PER_SEC as int / new_rate as int,
                ..old(self)@
            }),
            final(self)@.per_frame_nanos > 0,
            old(self).wf() ==> final(self).wf(),
    {
        proof {
            assert(NANOS_PER_SEC as int / new_rate as int >= 1) by (nonlinear_arith)
                requires
                    1 <= new_rate as int <= NANOS_PER_SEC as int,
            ;
        }
        self.per_frame_duration = NetDuration::from_secs(1).div_by(new_rate);
    }

    /// Sets the rate at which messages are sent: every N frames, where N is
    /// `new_rate`. A rate of zero would leave the send predicate undefined
    /// and is ruled out.
    pub fn set_message_send_rate(&mut self, new_rate: u8)
        requires
            1 <= new_rate,
        ensures
            final(self)@ == (TimeModel {
                message_send_rate: new_rate as int,
                ..old(self)@
            }),
            old(self).wf() ==> final(self).wf(),
    {
        self.message_send_rate = new_rate;
    }
}

impl Default for NetworkTime {
    /// Frame 0, nothing banked, 100 frames per minute, a message on every
    /// frame, and one frame of initial lag so that frame 0 runs at least
    /// once.
    fn default() -> (r: Self)
        ensures
            r@.frame_number == 0,
            r@.elapsed_nanos == 0,
            r@.per_frame_nanos == SECS_PER_MIN * NANOS_PER_SEC / DEFAULT_TICKS_PER_MIN as int,
            r@.message_send_rate == 1,
            r@.frame_lag == 1,
            r.wf(),
    {
        NetworkTime {
            frame_number: 0,
            elapsed_duration: NetDuration::from_nanos(0),
            per_frame_duration: NetDuration::from_secs(SECS_PER_MIN).div_by(DEFAULT_TICKS_PER_MIN),
            message_send_rate: 1,
            frame_lag: 1,
        }
    }
}

/// Law: over any run of consecutive frame advances with no intervening lag
/// reset, `frame_lag` and `frame_number` each grow by exactly the number of
/// advances, and the configured per-frame duration and send cadence are
/// untouched.
pub proof fn lemma_advance_run(states: Seq<TimeModel>)
    requires
        states.len() >= 1,
        forall|i: int| 0 <= i < states.len() - 1 ==> advance_step(states[i], #[trigger] states[i + 1]),
    ensures
        states.last().frame_lag == states.first().frame_lag + states.len() - 1,
        states.last().frame_number == states.first().frame_number + states.len() - 1,
        states.last().per_frame_nanos == states.first().per_frame_nanos,
        states.last().message_send_rate == states.first().message_send_rate,
    decreases states.len(),
{
    if states.len() > 1 {
        lemma_advance_run(states.drop_last());
        let k: int = states.len() - 2;
        assert(advance_step(states[k], states[k + 1]));
    }
}

/// Law: over any run of elapsed-time deposits, the banked elapsed time grows
/// by exactly the sum of the deposited durations, and every other field is
/// untouched.
pub proof fn lemma_elapsed_run(states: Seq<TimeModel>, added: Seq<int>)
    requires
        states.len() == added.len() + 1,
        forall|i: int| 0 <= i < added.len() ==> elapsed_step(states[i], #[trigger] states[i + 1], added[i]),
    ensures
        states.last().elapsed_nanos == states.first().elapsed_nanos + total_nanos(added),
        states.last().frame_number == states.first().frame_number,
        states.last().frame_lag == states.first().frame_lag,
        states.last().per_frame_nanos == states.first().per_frame_nanos,
        states.last().message_send_rate == states.first().message_send_rate,
    decreases added.len(),
{
    if added.len() > 0 {
        lemma_elapsed_run(states.drop_last(), added.drop_last());
        let k: int = added.len() - 1;
        assert(elapsed_step(states[k], states[k + 1], added[k]));
    }
}

} // verus!
