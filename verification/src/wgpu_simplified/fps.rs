//! A frame rate counter over a sliding window of one second.

use std::collections::VecDeque;
use vstd::prelude::*;

verus! {

/// Clock readings are nanoseconds on a monotonic clock whose origin the caller picks.
pub const NANOS_PER_SEC: u64 = 1_000_000_000;

/// Number of leading entries of `frames` that are earlier than `cutoff`.
pub open spec fn stale_prefix(frames: Seq<u64>, cutoff: int) -> nat
    decreases frames.len(),
{
    if frames.len() > 0 && frames[0] < cutoff {
        1 + stale_prefix(frames.drop_first(), cutoff)
    } else {
        0
    }
}

/// The window after a frame at `now`: the leading entries that are more than a
/// second old are gone, and `now` stands at the end.
pub open spec fn window_after(frames: Seq<u64>, now: u64) -> Seq<u64> {
    frames.skip(stale_prefix(frames, now - NANOS_PER_SEC) as int).push(now)
}

/// Time from `earlier` to `later`, zero when `later` is not after `earlier`.
pub open spec fn elapsed(earlier: u64, later: u64) -> int {
    if later >= earlier {
        later - earlier
    } else {
        0
    }
}

/// Whether at least `interval` whole seconds lie between `last_print` and `now`.
pub open spec fn report_due(last_print: u64, now: u64, interval: u64) -> bool {
    elapsed(last_print, now) >= interval * NANOS_PER_SEC
}

/// Whether every entry is at most the next one.
pub open spec fn ascending(frames: Seq<u64>) -> bool {
    forall|i: int, j: int| 0 <= i <= j < frames.len() ==> frames[i] <= frames[j]
}

/// Counts the frames of the last second and says every few seconds how many
/// they were.
#[derive(Debug)]
pub struct FpsCounter {
    last_second_frames: VecDeque<u64>,
    last_print_time: u64,
}

impl FpsCounter {
    /// The frames in the window, oldest first.
    pub closed spec fn frames(&self) -> Seq<u64> {
        self.last_second_frames@
    }

    /// The time of the last report, or of creation when nothing was reported yet.
    pub closed spec fn last_print(&self) -> u64 {
        self.last_print_time
    }

    /// The frame rate to print for a frame at `now`: the size of the window
    /// after it, when a report is due.
    pub open spec fn report(&self, now: u64, interval: u64) -> Option<usize> {
        if report_due(self.last_print(), now, interval) {
            Some(window_after(self.frames(), now).len() as usize)
        } else {
            None
        }
    }

    /// Whether `next` is this counter after a frame at `now`: the window has
    /// moved on, and the time of the last report is `now` where one was due.
    pub open spec fn steps_to(&self, next: FpsCounter, now: u64, interval: u64) -> bool {
        &&& next.frames() == window_after(self.frames(), now)
        &&& next.last_print() == if report_due(self.last_print(), now, interval) {
            now
        } else {
            self.last_print()
        }
    }

    /// Creates a counter with an empty window at time `now`.
    pub fn new(now: u64) -> (counter: Self)
        ensures
            counter.frames() == Seq::<u64>::empty(),
            counter.last_print() == now,
    {
        Self { last_second_frames: VecDeque::with_capacity(128), last_print_time: now }
    }

    /// Number of frames in the window.
    pub fn frame_count(&self) -> (count: usize)
        ensures
            count == self.frames().len(),
    {
        self.last_second_frames.len()
    }

    /// Records a frame at `now` and answers with the frame rate to print when a
    /// report is due: the number of frames in the window, once `interval`
    /// seconds have passed since the last report.
    pub fn print_fps(&mut self, now: u64, interval: u64) -> (fps: Option<usize>)
        ensures
            old(self).steps_to(*final(self), now, interval),
            fps == old(self).report(now, interval),
    {
        let ghost before = self.last_second_frames@;
        let ghost cutoff: int = now - NANOS_PER_SEC;
        let ghost mut dropped: nat = 0;
        while self.last_second_frames.len() > 0 && is_stale(self.last_second_frames[0], now)
            invariant
                cutoff == now - NANOS_PER_SEC,
                dropped <= before.len(),
                self.last_second_frames@ == before.skip(dropped as int),
                stale_prefix(before, cutoff) == dropped + stale_prefix(
                    self.last_second_frames@,
                    cutoff,
                ),
                self.last_print_time == old(self).last_print_time,
            decreases self.last_second_frames@.len(),
        {
            let ghost current = self.last_second_frames@;
            self.last_second_frames.pop_front();
            proof {
                assert(self.last_second_frames@ =~= current.drop_first());
                assert(self.last_second_frames@ =~= before.skip((dropped + 1) as int));
                dropped = dropped + 1;
            }
        }
        self.last_second_frames.push_back(now);
        let since_print: u64 = time_since(self.last_print_time, now);
        if since_print as u128 >= interval as u128 * NANOS_PER_SEC as u128 {
            self.last_print_time = now;
            Some(self.last_second_frames.len())
        } else {
            None
        }
    }
}

/// The leading run that `stale_prefix` counts lies inside the sequence, is
/// earlier than `cutoff` throughout, and ends at an entry that is not.
pub proof fn lemma_stale_prefix(frames: Seq<u64>, cutoff: int)
    ensures
        stale_prefix(frames, cutoff) <= frames.len(),
        forall|i: int| 0 <= i < stale_prefix(frames, cutoff) ==> frames[i] < cutoff,
        stale_prefix(frames, cutoff) < frames.len() ==> frames[stale_prefix(frames, cutoff) as int]
            >= cutoff,
    decreases frames.len(),
{
    if frames.len() > 0 && frames[0] < cutoff {
        let rest = frames.drop_first();
        lemma_stale_prefix(rest, cutoff);
        assert forall|i: int| 0 <= i < stale_prefix(frames, cutoff) implies frames[i] < cutoff by {
            if i > 0 {
                assert(frames[i] == rest[i - 1]);
            }
        }
        if stale_prefix(frames, cutoff) < frames.len() {
            assert(frames[stale_prefix(frames, cutoff) as int] == rest[stale_prefix(
                rest,
                cutoff,
            ) as int]);
        }
    }
}

/// On a clock that never runs backwards the window holds exactly the frames of
/// the last second: when the frames so far are in ascending order and `now` is
/// not earlier than the latest, the window after `now` is ascending again,
/// none of its entries is more than a second old, and every earlier frame that
/// is at most a second old is still in it.
pub proof fn lemma_window_holds_last_second(frames: Seq<u64>, now: u64)
    requires
        ascending(frames),
        frames.len() > 0 ==> frames.last() <= now,
    ensures
        ascending(window_after(frames, now)),
        window_after(frames, now).last() == now,
        forall|i: int|
            0 <= i < window_after(frames, now).len() ==> now - NANOS_PER_SEC <= #[trigger] window_after(
                frames,
                now,
            )[i] <= now,
        forall|i: int|
            0 <= i < frames.len() && #[trigger] frames[i] >= now - NANOS_PER_SEC
                ==> window_after(frames, now).contains(frames[i]),
{
    let cutoff: int = now - NANOS_PER_SEC;
    let k = stale_prefix(frames, cutoff);
    let kept = frames.skip(k as int);
    let after = window_after(frames, now);
    lemma_stale_prefix(frames, cutoff);
    assert forall|i: int| 0 <= i < after.len() implies cutoff <= #[trigger] after[i] <= now by {
        if i < kept.len() {
            assert(after[i] == frames[i + k]);
            assert(frames[k as int] <= frames[i + k]);
            assert(frames[i + k] <= frames[frames.len() - 1]);
        }
    }
    assert forall|i: int, j: int| 0 <= i <= j < after.len() implies after[i] <= after[j] by {
        if j < kept.len() {
            assert(after[i] == frames[i + k]);
            assert(after[j] == frames[j + k]);
        }
    }
    assert forall|i: int| 0 <= i < frames.len() && #[trigger] frames[i] >= cutoff implies after.contains(
        frames[i],
    ) by {
        assert(i >= k);
        assert(after[i - k] == frames[i]);
    }
}

/// A counter that is fed the readings of a clock that never runs backwards
/// keeps its frames in ascending order, and after each frame holds none that
/// is more than a second old.
pub proof fn lemma_counter_holds_last_second(
    counter: FpsCounter,
    next: FpsCounter,
    now: u64,
    interval: u64,
)
    requires
        counter.steps_to(next, now, interval),
        ascending(counter.frames()),
        counter.frames().len() > 0 ==> counter.frames().last() <= now,
    ensures
        ascending(next.frames()),
        next.frames().len() > 0,
        next.frames().last() == now,
        forall|i: int|
            0 <= i < next.frames().len() ==> now - NANOS_PER_SEC <= #[trigger] next.frames()[i]
                <= now,
{
    lemma_window_holds_last_second(counter.frames(), now);
}

/// Time from `earlier` to `later`, zero when `later` is not after `earlier`.
pub fn time_since(earlier: u64, later: u64) -> (span: u64)
    ensures
        span == elapsed(earlier, later),
{
    if later >= earlier {
        later - earlier
    } else {
        0
    }
}

/// Whether a frame recorded at `frame` is more than a second older than `now`.
fn is_stale(frame: u64, now: u64) -> (stale: bool)
    ensures
        stale == (frame < now - NANOS_PER_SEC),
{
    now >= NANOS_PER_SEC && frame < now - NANOS_PER_SEC
}

} // verus!
