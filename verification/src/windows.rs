//! Window generation: partitioning a time range into fixed-size windows.

use vstd::prelude::*;

verus! {

/// One fixed-duration time range, dispatched as a unit of pagination work.
#[derive(Debug, Clone, Copy, PartialEq, Eq, Structural)]
pub struct WorkWindow {
    pub start_epoch: u64,
    pub end_epoch: u64,
}

/// The ordered sequence of windows covering `[start, now)`: windows of width
/// `size` are emitted from `start` onward as long as a window's end stays
/// strictly below `now`.
pub open spec fn spec_windows(start: u64, size: u64, now: u64) -> Seq<WorkWindow>
    decreases now - start,
{
    if 1 <= size && start + size < now {
        seq![WorkWindow { start_epoch: start, end_epoch: (start + size) as u64 }]
            + spec_windows((start + size) as u64, size, now)
    } else {
        Seq::empty()
    }
}

/// One window of the configured width, beginning at `starting_epoch`.
pub fn generate_work_window(starting_epoch: u64) -> (w: WorkWindow)
    requires
        starting_epoch + crate::WINDOW_SIZE <= u64::MAX,
    ensures
        w.start_epoch == starting_epoch,
        w.end_epoch == starting_epoch + crate::WINDOW_SIZE,
{
    WorkWindow {
        start_epoch: starting_epoch,
        end_epoch: starting_epoch + crate::WINDOW_SIZE,
    }
}

/// The ordered set of work windows of width `window_size` covering
/// `[starting_epoch, now)`.
pub fn generate_windows(starting_epoch: u64, window_size: u64, now: u64) -> (windows: Vec<
    WorkWindow,
>)
    requires
        1 <= window_size,
    ensures
        windows@ == spec_windows(starting_epoch, window_size, now),
{
    let mut windows: Vec<WorkWindow> = Vec::new();
    let mut cursor: u64 = starting_epoch;
    while cursor < now && window_size < now - cursor
        invariant
            1 <= window_size,
            spec_windows(starting_epoch, window_size, now) == windows@ + spec_windows(
                cursor,
                window_size,
                now,
            ),
        decreases now - cursor,
    {
        let ghost prev_windows = windows@;
        let ghost prev_cursor = cursor;
        let end: u64 = cursor + window_size;
        windows.push(WorkWindow { start_epoch: cursor, end_epoch: end });
        cursor = end;
        proof {
            let w = WorkWindow { start_epoch: prev_cursor, end_epoch: end };
            assert(spec_windows(prev_cursor, window_size, now) == seq![w] + spec_windows(
                cursor,
                window_size,
                now,
            ));
            assert(windows@ =~= prev_windows + seq![w]);
            assert((prev_windows + seq![w]) + spec_windows(cursor, window_size, now)
                =~= prev_windows + (seq![w] + spec_windows(cursor, window_size, now)));
        }
    }
    proof {
        assert(spec_windows(cursor, window_size, now) == Seq::<WorkWindow>::empty());
        assert(windows@ + Seq::<WorkWindow>::empty() =~= windows@);
    }
    windows
}

/// Work windows of the configured width from `starting_epoch` up to the
/// current wall-clock time. The clock is read once; the emitted sequence is
/// the deterministic window cover for that reading.
pub fn generate_work_windows(starting_epoch: u64) -> (windows: Vec<WorkWindow>)
    ensures
        exists|now: u64| windows@ == spec_windows(starting_epoch, crate::WINDOW_SIZE, now),
        forall|i: int|
            0 <= i < windows@.len() ==> (#[trigger] windows@[i]).end_epoch == windows@[i].start_epoch
                + crate::WINDOW_SIZE,
        forall|i: int|
            0 <= i < windows@.len() - 1 ==> (#[trigger] windows@[i + 1]).start_epoch
                == windows@[i].end_epoch,
        windows@.len() > 0 ==> windows@[0].start_epoch == starting_epoch,
{
    let now = crate::time::now_epoch();
    let windows = generate_windows(starting_epoch, crate::WINDOW_SIZE, now);
    proof {
        assert(windows@ == spec_windows(starting_epoch, crate::WINDOW_SIZE, now));
        lemma_window_coverage(starting_epoch, crate::WINDOW_SIZE, now);
    }
    windows
}

/// Every generated window is exactly `size` wide; consecutive windows are
/// contiguous; the first window starts at `start`; every window ends strictly
/// before `now`; and the sequence is empty exactly when `start + size >= now`.
pub proof fn lemma_window_coverage(start: u64, size: u64, now: u64)
    requires
        1 <= size,
    ensures
        forall|i: int|
            0 <= i < spec_windows(start, size, now).len() ==> (#[trigger] spec_windows(
                start,
                size,
                now,
            )[i]).end_epoch == spec_windows(start, size, now)[i].start_epoch + size,
        forall|i: int|
            0 <= i < spec_windows(start, size, now).len() - 1 ==> (#[trigger] spec_windows(
                start,
                size,
                now,
            )[i + 1]).start_epoch == spec_windows(start, size, now)[i].end_epoch,
        spec_windows(start, size, now).len() == 0 <==> start + size >= now,
        spec_windows(start, size, now).len() > 0 ==> spec_windows(start, size, now)[0].start_epoch
            == start,
        forall|i: int|
            0 <= i < spec_windows(start, size, now).len() ==> (#[trigger] spec_windows(
                start,
                size,
                now,
            )[i]).end_epoch < now,
    decreases now - start,
{
    if start + size < now {
        lemma_window_coverage((start + size) as u64, size, now);
        let ws = spec_windows(start, size, now);
        let rest = spec_windows((start + size) as u64, size, now);
        assert forall|i: int| 1 <= i < ws.len() implies ws[i] == rest[i - 1] by {}
        assert forall|i: int| 0 <= i < ws.len() - 1 implies (#[trigger] ws[i + 1]).start_epoch
            == ws[i].end_epoch by {
            if i == 0 {
                assert(ws[1] == rest[0]);
            } else {
                assert(ws[i] == rest[i - 1]);
                assert(ws[i + 1] == rest[i]);
                assert(rest[(i - 1) + 1].start_epoch == rest[i - 1].end_epoch);
            }
        }
    }
}

} // verus!
