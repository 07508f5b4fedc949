//! The per-window pagination loop.
//!
//! One loop owns one window's cursor. Each iteration first observes the
//! cancellation flag, then applies the outcome of one fetch made at the
//! cursor: an error fails the window, an empty page exhausts it, and a
//! non-empty page is persisted under the key formed from its first and last
//! record end-times, after which the cursor advances to the last record's
//! end-time. The empty page is the only termination signal the remote API
//! gives; the cursor is a function of observed data alone.

use vstd::prelude::*;

use crate::models::MatchStamp;
use crate::time::datetime_epoch;
use crate::time::human_to_unix_epoch;
use crate::windows::WorkWindow;

verus! {

/// The state of one window's pagination loop.
#[derive(Debug, Clone, Copy, PartialEq, Eq, Structural)]
pub enum LoopState {
    /// More pages may remain; the next fetch is due at the cursor.
    Running,
    /// An empty page showed that no records remain after the cursor.
    Exhausted,
    /// The cancellation flag was observed at a loop-top check.
    Cancelled,
    /// A fetch failed or a record end-time did not parse.
    Failed,
}

/// A failed fetch: the remote answered outside the 2xx range, or its body
/// did not parse as a batch of match records.
#[derive(Debug, Clone, Copy, PartialEq, Eq, Structural)]
pub enum FetchError {
    Remote { status: u16 },
    Malformed,
}

/// Why a window ended `Failed`, for diagnostics.
#[derive(Debug, Clone, Copy, PartialEq, Eq, Structural)]
pub enum WindowFailure {
    /// The remote answered outside the 2xx range to the fetch at `epoch`.
    Remote { epoch: u64, status: u16 },
    /// A response body did not parse as a batch of match records.
    Malformed,
    /// A record end-time string did not parse, so the cursor could not
    /// advance safely.
    TimestampParse,
}

/// The key under which one persisted batch is filed: the end-times of its
/// first and last records.
#[derive(Debug, Clone, Copy, PartialEq, Eq, Structural)]
pub struct PersistKey {
    pub first_end: u64,
    pub last_end: u64,
}

/// The end-time strings of a batch, in batch order.
pub open spec fn stamps_view(batch: Seq<MatchStamp>) -> Seq<Seq<char>> {
    batch.map_values(|m: MatchStamp| m.end_time@)
}

/// A fetch outcome reduced to what the engine reads: the end-time strings
/// of a successful batch, or the error.
pub open spec fn page_view(page: Result<Vec<MatchStamp>, FetchError>) -> Result<
    Seq<Seq<char>>,
    FetchError,
> {
    match page {
        Result::Ok(batch) => Result::Ok(stamps_view(batch@)),
        Result::Err(e) => Result::Err(e),
    }
}

/// The failure a fetch error leaves on the window, stamped with the epoch
/// the fetch was made at.
pub open spec fn fetch_failure(epoch: u64, e: FetchError) -> WindowFailure {
    match e {
        FetchError::Remote { status } => WindowFailure::Remote { epoch, status },
        FetchError::Malformed => WindowFailure::Malformed,
    }
}

/// The key a non-empty batch is persisted under — the end-times of its
/// first and last records — or `None` when either end-time fails to parse.
pub open spec fn spec_batch_key(stamps: Seq<Seq<char>>) -> Option<PersistKey> {
    match (datetime_epoch(stamps.first()), datetime_epoch(stamps.last())) {
        (Some(first_end), Some(last_end)) => Some(PersistKey { first_end, last_end }),
        _ => None,
    }
}

/// The key under which a non-empty batch is persisted, from its first and
/// last record end-times; `None` exactly when either end-time fails to
/// parse.
pub fn batch_key(batch: &Vec<MatchStamp>) -> (key: Option<PersistKey>)
    requires
        batch@.len() > 0,
    ensures
        key == spec_batch_key(stamps_view(batch@)),
{
    proof {
        assert(stamps_view(batch@)[0] == batch@[0].end_time@);
        assert(stamps_view(batch@)[batch@.len() - 1] == batch@[batch@.len() - 1].end_time@);
    }
    let first = human_to_unix_epoch(batch[0].end_time.as_str());
    let last = human_to_unix_epoch(batch[batch.len() - 1].end_time.as_str());
    match (first, last) {
        (Some(first_end), Some(last_end)) => Some(PersistKey { first_end, last_end }),
        _ => None,
    }
}

/// One pagination transition: from a cursor and one fetch outcome to the
/// next state, the next cursor, the key persisted (if any), and the failure
/// recorded (if any).
pub open spec fn spec_step(epoch: u64, page: Result<Seq<Seq<char>>, FetchError>) -> (
    LoopState,
    u64,
    Option<PersistKey>,
    Option<WindowFailure>,
) {
    match page {
        Result::Err(e) => (LoopState::Failed, epoch, None, Some(fetch_failure(epoch, e))),
        Result::Ok(recs) => if recs.len() == 0 {
            (LoopState::Exhausted, epoch, None, None)
        } else {
            match spec_batch_key(recs) {
                Some(key) => (LoopState::Running, key.last_end, Some(key), None),
                None => (LoopState::Failed, epoch, None, Some(WindowFailure::TimestampParse)),
            }
        },
    }
}

/// One window's pagination loop: its window, its exclusively-owned cursor,
/// its state, and the reason it failed, if it did.
#[derive(Debug, Clone, Copy, PartialEq, Eq)]
pub struct WindowRun {
    pub window: WorkWindow,
    pub cursor: u64,
    pub state: LoopState,
    pub failure: Option<WindowFailure>,
}

impl WindowRun {
    /// A fresh loop for `window`: running, cursor at the window's start.
    pub fn new(window: WorkWindow) -> (r: WindowRun)
        ensures
            r.window == window,
            r.cursor == window.start_epoch,
            r.state is Running,
            r.failure is None,
    {
        WindowRun { window, cursor: window.start_epoch, state: LoopState::Running, failure: None }
    }

    /// The loop-top cancellation checkpoint: a set flag moves a running loop
    /// to `Cancelled`; nothing else changes, and a terminal state stays.
    pub fn observe_cancellation(&mut self, flag_set: bool)
        ensures
            final(self).window == old(self).window,
            final(self).cursor == old(self).cursor,
            final(self).failure == old(self).failure,
            final(self).state == if flag_set && old(self).state is Running {
                LoopState::Cancelled
            } else {
                old(self).state
            },
    {
        if flag_set && self.state == LoopState::Running {
            self.state = LoopState::Cancelled;
        }
    }

    /// Apply the outcome of one fetch made at the current cursor: exactly
    /// the transition `spec_step` describes. The returned key, if any, is
    /// the one the caller must persist the batch under before fetching
    /// again.
    pub fn apply_fetch(&mut self, page: &Result<Vec<MatchStamp>, FetchError>) -> (act: Option<
        PersistKey,
    >)
        requires
            old(self).state is Running,
            old(self).failure is None,
        ensures
            final(self).window == old(self).window,
            ({
                let (st, cur, key, fail) = spec_step(old(self).cursor, page_view(*page));
                &&& final(self).state == st
                &&& final(self).cursor == cur
                &&& act == key
                &&& final(self).failure == fail
            }),
    {
        match page {
            Result::Err(e) => {
                let err: FetchError = *e;
                let reason: WindowFailure = match err {
                    FetchError::Remote { status } => WindowFailure::Remote {
                        epoch: self.cursor,
                        status,
                    },
                    FetchError::Malformed => WindowFailure::Malformed,
                };
                self.failure = Some(reason);
                self.state = LoopState::Failed;
                None
            },
            Result::Ok(batch) => {
                if batch.len() == 0 {
                    self.state = LoopState::Exhausted;
                    None
                } else {
                    match batch_key(batch) {
                        Some(key) => {
                            self.cursor = key.last_end;
                            Some(key)
                        },
                        None => {
                            self.failure = Some(WindowFailure::TimestampParse);
                            self.state = LoopState::Failed;
                            None
                        },
                    }
                }
            },
        }
    }
}

/// Whether loop-top check number `checks` observes the cancellation flag.
/// The write-once flag is modeled by the number of the check from which it
/// is seen set: `None` for a flag that is never set.
pub open spec fn flag_observed(checks: int, cancel_at: Option<usize>) -> bool {
    match cancel_at {
        Some(c) => checks >= c,
        None => false,
    }
}

/// The keys persisted by one transition: one key or none.
pub open spec fn key_seq(key: Option<PersistKey>) -> Seq<PersistKey> {
    match key {
        Some(k) => seq![k],
        None => Seq::empty(),
    }
}

/// The model of one window's loop run against the fetch outcomes
/// `script[i..]`, with the cursor at `cursor` and `i` loop-top checks
/// already behind it: final state, final cursor, fetches issued from here
/// on, keys persisted from here on, and the failure recorded, if any.
/// A run that outlives the script ends still `Running`.
pub open spec fn spec_run_from(
    cursor: u64,
    script: Seq<Result<Seq<Seq<char>>, FetchError>>,
    i: int,
    cancel_at: Option<usize>,
) -> (LoopState, u64, int, Seq<PersistKey>, Option<WindowFailure>)
    decreases script.len() - i,
{
    if flag_observed(i, cancel_at) {
        (LoopState::Cancelled, cursor, 0, Seq::empty(), None)
    } else if i < 0 || i >= script.len() {
        (LoopState::Running, cursor, 0, Seq::empty(), None)
    } else {
        let (st, cur, key, fail) = spec_step(cursor, script[i]);
        if st is Running {
            let rest = spec_run_from(cur, script, i + 1, cancel_at);
            (rest.0, rest.1, 1 + rest.2, key_seq(key) + rest.3, rest.4)
        } else {
            (st, cur, 1, key_seq(key), fail)
        }
    }
}

/// The model of one full window run: the loop from the window's start, with
/// no checks behind it.
pub open spec fn spec_window_run(
    window: WorkWindow,
    script: Seq<Result<Seq<Seq<char>>, FetchError>>,
    cancel_at: Option<usize>,
) -> (LoopState, u64, int, Seq<PersistKey>, Option<WindowFailure>) {
    spec_run_from(window.start_epoch, script, 0, cancel_at)
}

/// What one window's run came to: its terminal state, its final cursor, how
/// many fetches it issued, the keys it persisted in order, and why it
/// failed, if it did.
#[derive(Debug, Clone, PartialEq, Eq)]
pub struct WindowReport {
    pub state: LoopState,
    pub cursor: u64,
    pub fetches: usize,
    pub persisted: Vec<PersistKey>,
    pub failure: Option<WindowFailure>,
}

impl WindowReport {
    /// The report states exactly what the run model `m` states.
    pub open spec fn matches_model(
        self,
        m: (LoopState, u64, int, Seq<PersistKey>, Option<WindowFailure>),
    ) -> bool {
        &&& self.state == m.0
        &&& self.cursor == m.1
        &&& self.fetches == m.2
        &&& self.persisted@ == m.3
        &&& self.failure == m.4
    }
}

/// The views of a script of fetch outcomes, in order.
pub open spec fn script_view(script: Seq<Result<Vec<MatchStamp>, FetchError>>) -> Seq<
    Result<Seq<Seq<char>>, FetchError>,
> {
    script.map_values(|p: Result<Vec<MatchStamp>, FetchError>| page_view(p))
}

/// Drive one window's pagination loop over a script of fetch outcomes.
///
/// Each iteration observes the cancellation flag (set from check number
/// `cancel_at` onward, never if `None`) and then consumes the next scripted
/// outcome, persisting and advancing as `spec_step` describes. The run
/// stops on cancellation, exhaustion, failure, or when the script runs out
/// while the loop is still running.
pub fn run_window_script(
    window: WorkWindow,
    script: &Vec<Result<Vec<MatchStamp>, FetchError>>,
    cancel_at: Option<usize>,
) -> (report: WindowReport)
    ensures
        report.matches_model(spec_window_run(window, script_view(script@), cancel_at)),
{
    let ghost model = spec_window_run(window, script_view(script@), cancel_at);
    let mut run = WindowRun::new(window);
    let mut persisted: Vec<PersistKey> = Vec::new();
    let mut i: usize = 0;
    loop
        invariant_except_break
            run.window == window,
            run.state is Running,
            run.failure is None,
            i <= script@.len(),
            ({
                let rest = spec_run_from(run.cursor, script_view(script@), i as int, cancel_at);
                model.0 == rest.0 && model.1 == rest.1 && model.2 == i + rest.2 && model.3
                    == persisted@ + rest.3 && model.4 == rest.4
            }),
        ensures
            model.0 == run.state,
            model.1 == run.cursor,
            model.2 == i,
            model.3 == persisted@,
            model.4 == run.failure,
        decreases script@.len() - i,
    {
        let ghost sv = script_view(script@);
        let flag_now: bool = match cancel_at {
            Some(c) => i >= c,
            None => false,
        };
        if flag_now {
            run.observe_cancellation(true);
            proof {
                assert(persisted@ + Seq::<PersistKey>::empty() =~= persisted@);
            }
            break ;
        }
        if i >= script.len() {
            proof {
                assert(persisted@ + Seq::<PersistKey>::empty() =~= persisted@);
            }
            break ;
        }
        let ghost prev_cursor = run.cursor;
        let ghost prev_persisted = persisted@;
        proof {
            assert(sv[i as int] == page_view(script@[i as int]));
        }
        let act = run.apply_fetch(&script[i]);
        i = i + 1;
        match act {
            Some(key) => persisted.push(key),
            None => (),
        }
        proof {
            let (st, cur, key, fail) = spec_step(prev_cursor, sv[i - 1]);
            if st is Running {
                let rest = spec_run_from(cur, sv, i as int, cancel_at);
                assert(spec_run_from(prev_cursor, sv, i - 1, cancel_at) == (
                    rest.0,
                    rest.1,
                    1 + rest.2,
                    key_seq(key) + rest.3,
                    rest.4,
                ));
                assert(persisted@ =~= prev_persisted + key_seq(key));
                assert((prev_persisted + key_seq(key)) + rest.3 =~= prev_persisted + (key_seq(key)
                    + rest.3));
            } else {
                assert(spec_run_from(prev_cursor, sv, i - 1, cancel_at) == (
                    st,
                    cur,
                    1int,
                    key_seq(key),
                    fail,
                ));
                assert(persisted@ =~= prev_persisted + key_seq(key));
            }
        }
        if !(run.state == LoopState::Running) {
            break ;
        }
    }
    WindowReport {
        state: run.state,
        cursor: run.cursor,
        fetches: i,
        persisted,
        failure: run.failure,
    }
}

/// A page that keeps the loop running: a successful fetch of a non-empty
/// batch whose first and last record end-times both parse.
pub open spec fn page_advances(page: Result<Seq<Seq<char>>, FetchError>) -> bool {
    &&& page is Ok
    &&& page->Ok_0.len() > 0
    &&& datetime_epoch(page->Ok_0.first()) is Some
    &&& datetime_epoch(page->Ok_0.last()) is Some
}

proof fn lemma_exhaustion_from(
    cursor: u64,
    script: Seq<Result<Seq<Seq<char>>, FetchError>>,
    i: int,
)
    requires
        0 <= i < script.len(),
        forall|j: int| i <= j < script.len() - 1 ==> page_advances(#[trigger] script[j]),
        script.last() is Ok,
        script.last()->Ok_0.len() == 0,
    ensures
        spec_run_from(cursor, script, i, None).0 is Exhausted,
        spec_run_from(cursor, script, i, None).2 == script.len() - i,
        spec_run_from(cursor, script, i, None).3 =~= Seq::new(
            (script.len() - 1 - i) as nat,
            |j: int| spec_batch_key(script[i + j]->Ok_0).unwrap(),
        ),
    decreases script.len() - i,
{
    let (st, cur, key, fail) = spec_step(cursor, script[i]);
    if i == script.len() - 1 {
        assert(script[i] == script.last());
        assert(st is Exhausted && key is None);
    } else {
        assert(page_advances(script[i]));
        assert(st is Running && key == Some(spec_batch_key(script[i]->Ok_0).unwrap()));
        lemma_exhaustion_from(cur, script, i + 1);
    }
}

/// Exhaustion law: a window whose fetch stream is some number of advancing
/// pages followed by one empty page makes the uncancelled loop issue exactly
/// one fetch per page — the final empty one included — persist exactly one
/// batch per non-empty page, each under its own first/last end-time key and
/// in page order, and end `Exhausted`.
pub proof fn lemma_exhaustion(window: WorkWindow, script: Seq<Result<Seq<Seq<char>>, FetchError>>)
    requires
        script.len() >= 1,
        forall|i: int| 0 <= i < script.len() - 1 ==> page_advances(#[trigger] script[i]),
        script.last() is Ok,
        script.last()->Ok_0.len() == 0,
    ensures
        spec_window_run(window, script, None).0 is Exhausted,
        spec_window_run(window, script, None).2 == script.len(),
        spec_window_run(window, script, None).3.len() == script.len() - 1,
        forall|i: int|
            0 <= i < script.len() - 1 ==> #[trigger] spec_window_run(window, script, None).3[i]
                == spec_batch_key(script[i]->Ok_0).unwrap(),
{
    lemma_exhaustion_from(window.start_epoch, script, 0);
}

proof fn lemma_cancellation_from(
    cursor: u64,
    script: Seq<Result<Seq<Seq<char>>, FetchError>>,
    i: int,
    c: usize,
)
    requires
        0 <= i,
    ensures
        i < c ==> spec_run_from(cursor, script, i, Some(c)).2 <= c - i,
        i >= c ==> spec_run_from(cursor, script, i, Some(c)) == (
            LoopState::Cancelled,
            cursor,
            0int,
            Seq::<PersistKey>::empty(),
            Option::<WindowFailure>::None,
        ),
    decreases script.len() - i,
{
    if !flag_observed(i, Some(c)) && 0 <= i < script.len() {
        let (st, cur, key, fail) = spec_step(cursor, script[i]);
        if st is Running {
            lemma_cancellation_from(cur, script, i + 1, c);
        }
    }
}

proof fn lemma_cancellation_prefix_from(
    cursor: u64,
    script: Seq<Result<Seq<Seq<char>>, FetchError>>,
    i: int,
    c: usize,
)
    ensures
        spec_run_from(cursor, script, i, Some(c)).3.is_prefix_of(
            spec_run_from(cursor, script, i, None).3,
        ),
    decreases script.len() - i,
{
    let cancelled = spec_run_from(cursor, script, i, Some(c)).3;
    let free = spec_run_from(cursor, script, i, None).3;
    if flag_observed(i, Some(c)) {
        assert(cancelled =~= free.subrange(0, 0));
    } else if i < 0 || i >= script.len() {
        assert(cancelled =~= free.subrange(0, cancelled.len() as int));
    } else {
        let (st, cur, key, fail) = spec_step(cursor, script[i]);
        if st is Running {
            lemma_cancellation_prefix_from(cur, script, i + 1, c);
            let rest_c = spec_run_from(cur, script, i + 1, Some(c)).3;
            let rest_f = spec_run_from(cur, script, i + 1, None).3;
            assert(rest_c =~= rest_f.subrange(0, rest_c.len() as int));
            assert(cancelled =~= free.subrange(0, cancelled.len() as int));
        } else {
            assert(cancelled =~= free.subrange(0, cancelled.len() as int));
        }
    }
}

/// Shutdown-safety law: whenever the flag stops a run, what it has persisted
/// is a prefix of what the same window would have persisted had it run to
/// its natural end — cancellation loses no persisted work and duplicates
/// none.
pub proof fn lemma_cancellation_keeps_prefix(
    window: WorkWindow,
    script: Seq<Result<Seq<Seq<char>>, FetchError>>,
    c: usize,
)
    ensures
        spec_window_run(window, script, Some(c)).3.is_prefix_of(
            spec_window_run(window, script, None).3,
        ),
{
    lemma_cancellation_prefix_from(window.start_epoch, script, 0, c);
}

/// Cancellation law: with the flag set from loop-top check number `c`
/// onward, a run issues at most `c` fetches — no fetch follows an observed
/// flag — and with the flag set before the first check it issues none,
/// persists nothing, and ends `Cancelled` with the cursor still at the
/// window's start.
pub proof fn lemma_cancellation(
    window: WorkWindow,
    script: Seq<Result<Seq<Seq<char>>, FetchError>>,
    c: usize,
)
    ensures
        spec_window_run(window, script, Some(c)).2 <= c,
        c == 0 ==> spec_window_run(window, script, Some(c)) == (
            LoopState::Cancelled,
            window.start_epoch,
            0int,
            Seq::<PersistKey>::empty(),
            Option::<WindowFailure>::None,
        ),
{
    lemma_cancellation_from(window.start_epoch, script, 0, c);
}

} // verus!
