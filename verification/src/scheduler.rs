//! Dispatching windows to pagination loops.
//!
//! The scheduler walks the ordered window list, re-checks the cancellation
//! flag before each dispatch, and skips every window from the first set
//! observation onward rather than starting a loop only to have it cancel at
//! once. Windows are independent: each dispatched loop runs against its own
//! window and its own fetch stream, and no window's outcome depends on a
//! sibling's.

use vstd::prelude::*;

use crate::models::MatchStamp;
use crate::pagination::FetchError;
use crate::pagination::LoopState;
use crate::pagination::PersistKey;
use crate::pagination::WindowFailure;
use crate::pagination::WindowReport;
use crate::pagination::flag_observed;
use crate::pagination::run_window_script;
use crate::pagination::script_view;
use crate::pagination::spec_window_run;
use crate::windows::WorkWindow;

verus! {

/// The views of all windows' fetch scripts, in window order.
pub open spec fn scripts_view(scripts: Seq<Vec<Result<Vec<MatchStamp>, FetchError>>>) -> Seq<
    Seq<Result<Seq<Seq<char>>, FetchError>>,
> {
    scripts.map_values(|s: Vec<Result<Vec<MatchStamp>, FetchError>>| script_view(s@))
}

/// The model of one scheduler pass: window `i` is skipped (`None`) when the
/// flag is observed set at its dispatch check — modeled as set from dispatch
/// number `cancel_at` onward — and otherwise runs its own script to a
/// terminal state, uncancelled.
pub open spec fn spec_schedule(
    windows: Seq<WorkWindow>,
    scripts: Seq<Seq<Result<Seq<Seq<char>>, FetchError>>>,
    cancel_at: Option<usize>,
) -> Seq<Option<(LoopState, u64, int, Seq<PersistKey>, Option<WindowFailure>)>> {
    Seq::new(
        windows.len(),
        |i: int|
            if flag_observed(i, cancel_at) {
                None
            } else {
                Some(spec_window_run(windows[i], scripts[i], None))
            },
    )
}

/// Run one pagination loop per window, each against its own fetch script,
/// re-checking the cancellation flag before every dispatch: from dispatch
/// check number `cancel_at` onward the flag is observed set and no further
/// window is started. Returns one entry per window, in order: the window's
/// report, or `None` where dispatch was refused.
pub fn run_all_windows(
    windows: &Vec<WorkWindow>,
    scripts: &Vec<Vec<Result<Vec<MatchStamp>, FetchError>>>,
    cancel_at: Option<usize>,
) -> (reports: Vec<Option<WindowReport>>)
    requires
        windows@.len() == scripts@.len(),
    ensures
        reports@.len() == windows@.len(),
        forall|i: int|
            0 <= i < windows@.len() ==> {
                let m = spec_schedule(windows@, scripts_view(scripts@), cancel_at)[i];
                match #[trigger] reports@[i] {
                    Some(rep) => m matches Some(run) && rep.matches_model(run),
                    None => m is None,
                }
            },
{
    let mut reports: Vec<Option<WindowReport>> = Vec::new();
    let mut i: usize = 0;
    while i < windows.len()
        invariant
            windows@.len() == scripts@.len(),
            i <= windows@.len(),
            reports@.len() == i,
            forall|j: int|
                0 <= j < i ==> {
                    let m = spec_schedule(windows@, scripts_view(scripts@), cancel_at)[j];
                    match #[trigger] reports@[j] {
                        Some(rep) => m matches Some(run) && rep.matches_model(run),
                        None => m is None,
                    }
                },
        decreases windows@.len() - i,
    {
        let flag_now: bool = match cancel_at {
            Some(c) => i >= c,
            None => false,
        };
        if flag_now {
            reports.push(None);
        } else {
            proof {
                assert(scripts_view(scripts@)[i as int] == script_view(scripts@[i as int]@));
            }
            let rep = run_window_script(windows[i], &scripts[i], None);
            reports.push(Some(rep));
        }
        i = i + 1;
    }
    reports
}

/// Isolation law: a dispatched window's outcome depends on its own window
/// and fetch script alone; altering any other window's script leaves it
/// unchanged. In particular a failing fetch stream for one window cannot
/// keep its siblings from completing normally.
pub proof fn lemma_window_isolation(
    windows: Seq<WorkWindow>,
    scripts_a: Seq<Seq<Result<Seq<Seq<char>>, FetchError>>>,
    scripts_b: Seq<Seq<Result<Seq<Seq<char>>, FetchError>>>,
    cancel_at: Option<usize>,
    w: int,
)
    requires
        scripts_a.len() == windows.len(),
        scripts_b.len() == windows.len(),
        0 <= w < windows.len(),
        scripts_a[w] == scripts_b[w],
    ensures
        spec_schedule(windows, scripts_a, cancel_at)[w] == spec_schedule(
            windows,
            scripts_b,
            cancel_at,
        )[w],
{
}

/// Shutdown law: a flag set before the first dispatch check starts no
/// window at all.
pub proof fn lemma_cancel_before_dispatch(
    windows: Seq<WorkWindow>,
    scripts: Seq<Seq<Result<Seq<Seq<char>>, FetchError>>>,
)
    ensures
        forall|i: int|
            0 <= i < windows.len() ==> #[trigger] spec_schedule(windows, scripts, Some(0))[i]
                is None,
{
}

} // verus!
