use vstd::prelude::*;
use crate::error::NetError;

verus! {

/// Longest gap, in milliseconds, allowed between two attempts that move bytes.
pub const IDLE_TIMEOUT_MS: i64 = 800;

/// Nanoseconds in one second.
pub const NANOS_PER_SEC: i32 = 1_000_000_000;

/// A wall-clock reading: whole seconds since the epoch and the nanoseconds
/// past that second.
#[derive(Clone, Copy, Debug, PartialEq, Eq, Structural)]
pub struct Stamp {
    pub sec: i64,
    pub nsec: i32,
}

impl Stamp {
    pub open spec fn wf(&self) -> bool {
        0 <= self.nsec < NANOS_PER_SEC
    }

    /// The reading as a count of nanoseconds.
    pub open spec fn nanos(&self) -> int {
        self.sec * 1_000_000_000 + self.nsec
    }
}

/// Relies on `time::get_time`, which builds its result with `Timespec::new`,
/// and that asserts `0 <= nsec < 1_000_000_000`.
#[verifier::external_body]
pub(crate) fn read_clock() -> (r: Stamp)
    ensures
        r.wf(),
{
    let t = time::get_time();
    Stamp { sec: t.sec, nsec: t.nsec }
}

/// Whether more than the idle timeout separates `last` from `now`.
pub open spec fn idle_exceeded(last: Stamp, now: Stamp) -> bool {
    now.nanos() - last.nanos() > IDLE_TIMEOUT_MS * 1_000_000
}

/// Decides whether more than the idle timeout separates `last` from `now`.
pub fn is_idle_exceeded(last: Stamp, now: Stamp) -> (r: bool)
    ensures
        r == idle_exceeded(last, now),
{
    let a = last.sec as i128 * 1_000_000_000 + last.nsec as i128;
    let b = now.sec as i128 * 1_000_000_000 + now.nsec as i128;
    b - a > IDLE_TIMEOUT_MS as i128 * 1_000_000
}

/// What the caller does after an attempt to move bytes.
#[derive(Clone, Copy, Debug, PartialEq, Eq, Structural)]
pub enum Step {
    /// Try again with the bytes that are still to move.
    Continue,
    /// Every byte has moved.
    Complete,
    /// No byte moved for longer than the idle timeout: give up.
    TimedOut,
}

/// Progress of one exact read or exact write of `total` bytes.
///
/// Each attempt that moves at least one byte restarts the idle window; the
/// transfer fails only after an attempt that moves nothing once the window has
/// run out, so a slow but steady peer never times out.
#[derive(Clone, Copy, Debug)]
pub struct Transfer {
    pub total: usize,
    pub done: usize,
    pub last_progress: Stamp,
}

impl Transfer {
    pub open spec fn wf(&self) -> bool {
        self.done <= self.total && self.last_progress.wf()
    }

    /// The decision after an attempt that moved `moved` bytes, seen at `now`.
    pub open spec fn step_spec(&self, moved: nat, now: Stamp) -> Step {
        if self.done + moved == self.total {
            Step::Complete
        } else if moved == 0 && idle_exceeded(self.last_progress, now) {
            Step::TimedOut
        } else {
            Step::Continue
        }
    }

    /// Starts a transfer of `total` bytes at the given instant.
    pub fn begin_at(total: usize, now: Stamp) -> (r: Transfer)
        requires
            now.wf(),
        ensures
            r.wf(),
            r.total == total,
            r.done == 0,
            r.last_progress == now,
    {
        Transfer { total, done: 0, last_progress: now }
    }

    /// Starts a transfer of `total` bytes now.
    pub fn begin(total: usize) -> (r: Transfer)
        ensures
            r.wf(),
            r.total == total,
            r.done == 0,
    {
        Transfer::begin_at(total, read_clock())
    }

    pub fn is_complete(&self) -> (r: bool)
        ensures
            r == (self.done == self.total),
    {
        self.done == self.total
    }

    /// How many bytes are still to move.
    pub fn remaining(&self) -> (r: usize)
        requires
            self.wf(),
        ensures
            r == self.total - self.done,
    {
        self.total - self.done
    }

    /// Records an attempt that moved `moved` bytes, observed at `now`.
    pub fn record_at(&mut self, moved: usize, now: Stamp) -> (r: Step)
        requires
            old(self).wf(),
            now.wf(),
            moved <= old(self).total - old(self).done,
        ensures
            final(self).wf(),
            final(self).total == old(self).total,
            final(self).done == old(self).done + moved,
            final(self).last_progress == (if moved > 0 {
                now
            } else {
                old(self).last_progress
            }),
            r == old(self).step_spec(moved as nat, now),
    {
        let idle = is_idle_exceeded(self.last_progress, now);
        self.done = self.done + moved;
        if moved > 0 {
            self.last_progress = now;
        }
        if self.done == self.total {
            Step::Complete
        } else if moved == 0 && idle {
            Step::TimedOut
        } else {
            Step::Continue
        }
    }

    /// Records an attempt that moved `moved` bytes, observed now. Whatever the
    /// clock reads: the transfer completes exactly when the last byte has
    /// moved, and it times out only after an attempt that moved nothing.
    pub fn record(&mut self, moved: usize) -> (r: Step)
        requires
            old(self).wf(),
            moved <= old(self).total - old(self).done,
        ensures
            final(self).wf(),
            final(self).total == old(self).total,
            final(self).done == old(self).done + moved,
            moved == 0 ==> final(self).last_progress == old(self).last_progress,
            (r == Step::Complete) <==> final(self).done == final(self).total,
            r == Step::TimedOut ==> moved == 0,
            moved > 0 && final(self).done < final(self).total ==> r == Step::Continue,
    {
        let now = read_clock();
        self.record_at(moved, now)
    }
}

impl Step {
    /// The decision as the session sees it: `Ok(true)` when the transfer is
    /// complete, `Ok(false)` to keep going, the timeout error otherwise.
    pub fn into_result(self) -> (r: Result<bool, NetError>)
        ensures
            r == (match self {
                Step::Complete => Ok(true),
                Step::Continue => Ok(false),
                Step::TimedOut => Err(NetError::Timeout),
            }),
    {
        match self {
            Step::Complete => Ok(true),
            Step::Continue => Ok(false),
            Step::TimedOut => Err(NetError::Timeout),
        }
    }
}

/// A stalled peer is detected: once the idle window has run out since the last
/// byte moved, an attempt that moves nothing ends an unfinished transfer with a
/// timeout, and fewer bytes than declared have moved.
pub proof fn lemma_stall_times_out(t: Transfer, now: Stamp)
    requires
        t.wf(),
        t.done < t.total,
        idle_exceeded(t.last_progress, now),
    ensures
        t.step_spec(0, now) == Step::TimedOut,
{
}

/// A steady peer is never timed out: an attempt that moves at least one byte
/// never ends the transfer with a timeout, however late it comes.
pub proof fn lemma_progress_never_times_out(t: Transfer, moved: nat, now: Stamp)
    requires
        t.wf(),
        0 < moved,
        t.done + moved <= t.total,
    ensures
        t.step_spec(moved, now) != Step::TimedOut,
{
}

} // verus!
