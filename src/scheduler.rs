//! The range scheduler: which block to launch next, on which RPC session and
//! database pool, and when to wait; and the progress accounting it reports.
use vstd::prelude::*;

verus! {

/// The blocks `start..=end`, in increasing order (empty when `start > end`).
pub open spec fn block_range(start: u64, end: u64) -> Seq<u64> {
    if start <= end {
        Seq::new((end - start + 1) as nat, |i: int| (start + i) as u64)
    } else {
        Seq::empty()
    }
}

/// What the driver of the scheduler does next.
#[derive(PartialEq, Eq, Structural, Clone, Copy, Debug)]
pub enum SchedulerAction {
    /// Launch the task of `block` on RPC session `rpc` and database pool `db`.
    Launch { block: u64, rpc: u64, db: u64 },
    /// Wait until one running task completes, then report it.
    WaitForTask,
    /// Every block has been launched and every task has completed.
    Done,
}

/// Launches the blocks of a range in batches of `max_concurrency`, waiting for
/// every task of a batch before the next batch starts.
pub struct RangeScheduler {
    start: u64,
    end: u64,
    max_concurrency: u64,
    rpc_sessions: u64,
    db_pools: u64,
    next: u64,
    exhausted: bool,
    batch_left: u64,
    in_flight: u64,
    launched: Ghost<Seq<u64>>,
}

impl RangeScheduler {
    pub closed spec fn max_concurrency(&self) -> u64 {
        self.max_concurrency
    }

    pub closed spec fn start(&self) -> u64 {
        self.start
    }

    pub closed spec fn end(&self) -> u64 {
        self.end
    }

    pub closed spec fn rpc_sessions(&self) -> u64 {
        self.rpc_sessions
    }

    pub closed spec fn db_pools(&self) -> u64 {
        self.db_pools
    }

    /// The number of launched tasks that have not completed.
    pub closed spec fn in_flight(&self) -> u64 {
        self.in_flight
    }

    /// The blocks launched so far, in launch order.
    pub closed spec fn launched(&self) -> Seq<u64> {
        self.launched@
    }

    /// How many more tasks the current batch may launch.
    pub closed spec fn batch_room(&self) -> u64 {
        self.batch_left
    }

    /// Whether every block of the range has been launched.
    pub closed spec fn all_launched(&self) -> bool {
        self.exhausted
    }

    pub closed spec fn wf(&self) -> bool {
        &&& self.max_concurrency > 0
        &&& self.rpc_sessions > 0
        &&& self.db_pools > 0
        &&& self.in_flight + self.batch_left <= self.max_concurrency
        &&& (self.exhausted ==> self.launched@ == block_range(self.start, self.end))
        &&& (!self.exhausted ==> {
            &&& self.start <= self.next <= self.end
            &&& self.launched@ == block_range(self.start, (self.next - 1) as u64).take(self.next - self.start)
            &&& self.launched@.len() == self.next - self.start
            &&& forall|i: int| 0 <= i < self.launched@.len() ==> #[trigger] self.launched@[i] == self.start + i
        })
    }

    /// A scheduler for the blocks `start..=end` (none when `start > end`).
    pub fn new(start: u64, end: u64, max_concurrency: u64, rpc_sessions: u64, db_pools: u64) -> (r: RangeScheduler)
        requires
            max_concurrency > 0,
            rpc_sessions > 0,
            db_pools > 0,
        ensures
            r.wf(),
            r.start() == start,
            r.end() == end,
            r.max_concurrency() == max_concurrency,
            r.rpc_sessions() == rpc_sessions,
            r.db_pools() == db_pools,
            r.in_flight() == 0,
            r.batch_room() == max_concurrency,
            r.launched() == Seq::<u64>::empty(),
    {
        let r = RangeScheduler {
            start,
            end,
            max_concurrency,
            rpc_sessions,
            db_pools,
            next: start,
            exhausted: start > end,
            batch_left: max_concurrency,
            in_flight: 0,
            launched: Ghost(Seq::empty()),
        };
        proof {
            if start > end {
                assert(block_range(start, end) =~= Seq::<u64>::empty());
            } else {
                assert(block_range(start, (start - 1) as u64).take(0) =~= Seq::<u64>::empty());
            }
        }
        r
    }

    /// The next step. While blocks remain, the batch has room and fewer than
    /// `max_concurrency` tasks run, it launches the next block of the range,
    /// with the session and pool chosen by the block number modulo their
    /// counts. Otherwise it waits while tasks run; once the batch's tasks have
    /// all completed, a new batch of `max_concurrency` starts, or the run is
    /// done when every block has been launched.
    pub fn next_action(&mut self) -> (a: SchedulerAction)
        requires
            old(self).wf(),
        ensures
            final(self).wf(),
            final(self).start() == old(self).start(),
            final(self).end() == old(self).end(),
            final(self).max_concurrency() == old(self).max_concurrency(),
            final(self).rpc_sessions() == old(self).rpc_sessions(),
            final(self).db_pools() == old(self).db_pools(),
            final(self).in_flight() <= final(self).max_concurrency(),
            if !old(self).all_launched() && old(self).batch_room() > 0 && old(self).in_flight() < old(self).max_concurrency() {
                &&& a is Launch
                &&& final(self).batch_room() == old(self).batch_room() - 1
            } else if old(self).in_flight() > 0 {
                &&& a is WaitForTask
                &&& final(self).batch_room() == old(self).batch_room()
                &&& final(self).all_launched() == old(self).all_launched()
            } else if !old(self).all_launched() {
                &&& a is Launch
                &&& final(self).batch_room() == old(self).max_concurrency() - 1
            } else {
                a is Done
            },
            match a {
                SchedulerAction::Launch { block, rpc, db } => {
                    &&& !old(self).all_launched()
                    &&& block == old(self).start() + old(self).launched().len()
                    &&& final(self).launched() == old(self).launched().push(block)
                    &&& rpc == block % old(self).rpc_sessions()
                    &&& db == block % old(self).db_pools()
                    &&& final(self).in_flight() == old(self).in_flight() + 1
                },
                SchedulerAction::WaitForTask => {
                    &&& old(self).in_flight() > 0
                    &&& final(self).launched() == old(self).launched()
                    &&& final(self).in_flight() == old(self).in_flight()
                },
                SchedulerAction::Done => {
                    &&& old(self).in_flight() == 0
                    &&& old(self).all_launched()
                    &&& final(self).launched() == block_range(old(self).start(), old(self).end())
                    &&& final(self).in_flight() == 0
                },
            },
    {
        if !self.exhausted && self.batch_left > 0 && self.in_flight < self.max_concurrency {
            let block = self.next;
            let ghost old_launched = self.launched@;
            self.launched = Ghost(self.launched@.push(block));
            self.in_flight = self.in_flight + 1;
            self.batch_left = self.batch_left - 1;
            if block == self.end {
                self.exhausted = true;
                proof {
                    assert(self.launched@ =~= block_range(self.start, self.end));
                }
            } else {
                self.next = block + 1;
                proof {
                    assert(self.launched@ =~= block_range(self.start, (self.next - 1) as u64).take(self.next - self.start));
                }
            }
            SchedulerAction::Launch { block, rpc: block % self.rpc_sessions, db: block % self.db_pools }
        } else if self.in_flight > 0 {
            SchedulerAction::WaitForTask
        } else if !self.exhausted {
            // The batch is complete: start the next one.
            self.batch_left = self.max_concurrency;
            let block = self.next;
            self.launched = Ghost(self.launched@.push(block));
            self.in_flight = 1;
            self.batch_left = self.batch_left - 1;
            if block == self.end {
                self.exhausted = true;
                proof {
                    assert(self.launched@ =~= block_range(self.start, self.end));
                }
            } else {
                self.next = block + 1;
                proof {
                    assert(self.launched@ =~= block_range(self.start, (self.next - 1) as u64).take(self.next - self.start));
                }
            }
            SchedulerAction::Launch { block, rpc: block % self.rpc_sessions, db: block % self.db_pools }
        } else {
            SchedulerAction::Done
        }
    }

    /// Reports that one running task has completed.
    pub fn task_finished(&mut self)
        requires
            old(self).wf(),
            old(self).in_flight() > 0,
        ensures
            final(self).wf(),
            final(self).start() == old(self).start(),
            final(self).end() == old(self).end(),
            final(self).max_concurrency() == old(self).max_concurrency(),
            final(self).rpc_sessions() == old(self).rpc_sessions(),
            final(self).db_pools() == old(self).db_pools(),
            final(self).launched() == old(self).launched(),
            final(self).in_flight() == old(self).in_flight() - 1,
            final(self).batch_room() == old(self).batch_room(),
            final(self).all_launched() == old(self).all_launched(),
    {
        self.in_flight = self.in_flight - 1;
    }

    /// The number of running tasks, to check the driver's own count against.
    pub fn running(&self) -> (r: u64)
        ensures
            r == self.in_flight(),
    {
        self.in_flight
    }
}

/// Whatever the driver does, the number of running tasks never exceeds the
/// concurrency bound: it holds of every well-formed scheduler state, which
/// every step keeps.
pub proof fn running_tasks_within_bound(s: RangeScheduler)
    requires
        s.wf(),
    ensures
        s.in_flight() <= s.max_concurrency(),
{
}

/// The blocks a completed run has launched are the whole range, each block
/// once, in increasing order.
pub proof fn completed_run_launches_each_block_once(start: u64, end: u64)
    requires
        start <= end,
    ensures
        block_range(start, end).len() == end - start + 1,
        forall|b: u64| start <= b <= end ==> #[trigger] block_range(start, end)[b - start] == b,
        forall|i: int, j: int|
            0 <= i < j < block_range(start, end).len() ==> #[trigger] block_range(start, end)[i] < #[trigger] block_range(start, end)[j],
{
}

/// The minimum time between two progress reports, in milliseconds.
pub const REPORT_INTERVAL_MS: u64 = 5000;

/// One progress line.
#[derive(PartialEq, Eq, Structural, Clone, Copy, Debug)]
pub struct ProgressReport {
    /// Whole percent of the range completed.
    pub percent: u64,
    /// Blocks completed per second over the window since the last report.
    pub blocks_per_second: u64,
    /// Remaining blocks over the window's rate, in seconds.
    pub eta_seconds: u64,
}

pub open spec fn percent_of(done: u64, total: u64) -> u64 {
    if total == 0 {
        100
    } else {
        (done as int * 100 / total as int) as u64
    }
}

/// A quantity, capped at the largest `u64`.
pub open spec fn saturate(q: int) -> u64 {
    if q > u64::MAX {
        u64::MAX
    } else {
        q as u64
    }
}

pub open spec fn rate_of(blocks: u64, elapsed_ms: u64) -> u64 {
    if elapsed_ms == 0 {
        blocks
    } else {
        saturate(blocks as int * 1000 / elapsed_ms as int)
    }
}

pub open spec fn eta_of(remaining: u64, blocks: u64, elapsed_ms: u64) -> u64 {
    if blocks == 0 {
        0
    } else {
        saturate(remaining as int * elapsed_ms as int / blocks as int / 1000)
    }
}

/// The number of blocks in `start..=end`, capped at the largest `u64`.
pub fn range_size(start: u64, end: u64) -> (r: u64)
    ensures
        r == saturate(block_range(start, end).len() as int),
{
    if start > end {
        0
    } else if end - start == u64::MAX {
        u64::MAX
    } else {
        end - start + 1
    }
}

/// Whether a record of `n` more blocks, `elapsed_ms` into the window, is due
/// to report.
pub open spec fn report_due(done: u64, n: u64, total: u64, elapsed_ms: u64) -> bool {
    elapsed_ms >= REPORT_INTERVAL_MS || done + n == total
}

/// A run that records every block it completes reports at least once: the
/// record that completes the range always reports, however fast the run.
pub proof fn completing_record_reports(done: u64, n: u64, total: u64, elapsed_ms: u64)
    requires
        done + n == total,
    ensures
        report_due(done, n, total, elapsed_ms),
{
}

/// Completed-block accounting over a range of `total` blocks, with a window
/// that restarts at each report.
pub struct Progress {
    pub total: u64,
    pub done: u64,
    pub window_blocks: u64,
    pub window_start_ms: u64,
}

impl Progress {
    pub fn new(total: u64, now_ms: u64) -> (r: Progress)
        ensures
            r.total == total,
            r.done == 0,
            r.window_blocks == 0,
            r.window_start_ms == now_ms,
    {
        Progress { total, done: 0, window_blocks: 0, window_start_ms: now_ms }
    }

    /// Records `n` more completed blocks at time `now_ms`. A report is due
    /// when the window has lasted `REPORT_INTERVAL_MS` or the range is
    /// complete; it then covers the window, which restarts.
    pub fn record(&mut self, n: u64, now_ms: u64) -> (r: Option<ProgressReport>)
        requires
            old(self).done + n <= old(self).total,
            old(self).window_blocks <= old(self).done,
            old(self).window_start_ms <= now_ms,
        ensures
            final(self).total == old(self).total,
            final(self).done == old(self).done + n,
            final(self).window_blocks <= final(self).done,
            final(self).window_start_ms <= now_ms,
            ({
                let done = (old(self).done + n) as u64;
                let window = (old(self).window_blocks + n) as u64;
                let elapsed = (now_ms - old(self).window_start_ms) as u64;
                if report_due(old(self).done, n, old(self).total, elapsed) {
                    &&& r == Some(ProgressReport {
                        percent: percent_of(done, old(self).total),
                        blocks_per_second: rate_of(window, elapsed),
                        eta_seconds: eta_of((old(self).total - done) as u64, window, elapsed),
                    })
                    &&& final(self).window_blocks == 0
                    &&& final(self).window_start_ms == now_ms
                } else {
                    &&& r is None
                    &&& final(self).window_blocks == window
                    &&& final(self).window_start_ms == old(self).window_start_ms
                }
            }),
    {
        self.done = self.done + n;
        self.window_blocks = self.window_blocks + n;
        let elapsed = now_ms - self.window_start_ms;
        if elapsed >= REPORT_INTERVAL_MS || self.done == self.total {
            let percent: u64 = if self.total == 0 {
                100
            } else {
                assert(self.done as int * 100 / self.total as int <= 100) by (nonlinear_arith)
                    requires self.done <= self.total, self.total > 0;
                ((self.done as u128 * 100) / self.total as u128) as u64
            };
            let rate: u64 = if elapsed == 0 {
                self.window_blocks
            } else {
                assert(self.window_blocks as int * 1000 / elapsed as int <= self.window_blocks as int * 1000) by (nonlinear_arith)
                    requires elapsed > 0, self.window_blocks >= 0;
                let q = (self.window_blocks as u128 * 1000) / elapsed as u128;
                if q > u64::MAX as u128 {
                    u64::MAX
                } else {
                    q as u64
                }
            };
            let remaining = self.total - self.done;
            let eta: u64 = if self.window_blocks == 0 {
                0
            } else {
                assert(remaining as int * elapsed as int <= u64::MAX as int * u64::MAX as int) by (nonlinear_arith)
                    requires remaining <= u64::MAX, elapsed <= u64::MAX, remaining >= 0, elapsed >= 0;
                let q = (remaining as u128 * elapsed as u128) / self.window_blocks as u128 / 1000;
                if q > u64::MAX as u128 {
                    u64::MAX
                } else {
                    q as u64
                }
            };
            self.window_blocks = 0;
            self.window_start_ms = now_ms;
            Some(ProgressReport { percent, blocks_per_second: rate, eta_seconds: eta })
        } else {
            None
        }
    }
}

} // verus!
