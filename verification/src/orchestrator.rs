//! The task orchestrator: fan-out of polling loops, one shared stop
//! signal, fan-in of their outcomes.
//!
//! One run spawns a polling loop per [`LoopSpec`], each holding an observer
//! of a fresh broadcaster, waits for the external interrupt, fires the
//! broadcaster once, waits for every loop to return, and collects one
//! [`TaskOutcome`] per loop. A run with no specs returns the empty result
//! at once, without waiting for any interrupt. Each run owns a fresh
//! broadcaster, so nothing leaks between runs.
//!
//! [`run_orchestration_sim`] is the verified simulated run: every loop
//! driven against the same simulated clock and the same fire time. A real
//! driver mirrors it with concurrent tasks and maps each join through
//! [`outcome_of_join`].

use vstd::prelude::*;

verus! {

use crate::polling::{
    DataKind, LoopRunReport, LoopSpec, Phase, SourceBehavior, loop_sim_report, run_loop_sim,
};
use crate::signal::{CancellationBroadcaster, StopObserver};

/// Poll interval of the order-book loop, in milliseconds.
pub const ORDER_BOOK_INTERVAL_MS: u64 = 750;

/// Poll interval of the market-trades loop, in milliseconds.
pub const TRADES_INTERVAL_MS: u64 = 300;

/// Poll interval of the specific-product loop, in milliseconds.
pub const SPECIFIC_PRODUCT_INTERVAL_MS: u64 = 50;

/// How one polling loop's run ended, created only at loop exit and read
/// once during the orchestrator's aggregation.
#[derive(Clone, PartialEq, Debug)]
pub enum TaskOutcome {
    /// Clean exit on the stop signal.
    Stopped,
    /// The task mechanics running the loop broke down; the message says
    /// how. Ordinary per-tick fetch errors never produce this.
    Failed(String),
}

/// What one orchestration run hands back: per loop, in spec order, the
/// loop's report and its outcome.
pub struct OrchestrationResult {
    pub reports: Vec<LoopRunReport>,
    pub outcomes: Vec<TaskOutcome>,
}

/// The report one loop contributes to an orchestration run interrupted at
/// `interrupt_at`: exactly its own simulated run, untouched by any other
/// loop's spec or behavior.
pub open spec fn orchestration_entry(
    s: LoopSpec,
    b: SourceBehavior,
    interrupt_at: u64,
) -> LoopRunReport {
    loop_sim_report(b, s.interval_ms, Some(interrupt_at), interrupt_at)
}

/// Map the result of joining one loop's task to its outcome: a clean join
/// is a stop, a broken task is the one loop-fatal case.
pub fn outcome_of_join(join_error: Option<String>) -> (t: TaskOutcome)
    ensures
        t == match join_error {
            Option::None => TaskOutcome::Stopped,
            Option::Some(e) => TaskOutcome::Failed(e),
        },
{
    match join_error {
        Option::None => TaskOutcome::Stopped,
        Option::Some(e) => TaskOutcome::Failed(e),
    }
}

/// One simulated orchestration run. The run owns a fresh
/// [`CancellationBroadcaster`], hands every loop its own observer, and on
/// the external interrupt fires the broadcaster exactly once, at simulated
/// time `interrupt_at`. Every observer of the fired broadcaster reports
/// the stop, so every loop's simulated run observes the fire at that time;
/// the run returns only when every loop has exited — each with outcome
/// `Stopped`, since in the simulation the task mechanics cannot break.
/// Each loop's entry is a function of its own spec and behavior alone.
/// A run with no specs returns the empty result at once.
pub fn run_orchestration_sim(
    specs: &Vec<LoopSpec>,
    behaviors: &Vec<SourceBehavior>,
    interrupt_at: u64,
) -> (r: OrchestrationResult)
    requires
        specs@.len() == behaviors@.len(),
        forall|i: int| 0 <= i < specs@.len() ==> (#[trigger] specs@[i]).wf(),
        forall|i: int|
            0 <= i < specs@.len() ==> interrupt_at <= u64::MAX - (#[trigger] specs@[i]).interval_ms,
    ensures
        r.reports@.len() == specs@.len(),
        r.outcomes@.len() == specs@.len(),
        forall|i: int|
            0 <= i < specs@.len() ==> #[trigger] r.reports@[i] == orchestration_entry(
                specs@[i],
                behaviors@[i],
                interrupt_at,
            ),
        forall|i: int| 0 <= i < specs@.len() ==> #[trigger] r.outcomes@[i] == TaskOutcome::Stopped,
{
    let n = specs.len();

    // fan-out: one observer of the shared broadcaster per spawned loop
    let mut broadcaster = CancellationBroadcaster::new();
    let mut observers: Vec<StopObserver> = Vec::new();
    let mut idx: usize = 0;
    while idx < n
        invariant
            observers@.len() == idx,
            idx <= n,
        decreases n - idx,
    {
        observers.push(broadcaster.subscribe());
        idx = idx + 1;
    }

    // the external interrupt: fire the shared stop signal, exactly once
    broadcaster.fire();

    // fan-in: wait for every loop; each observes the fired signal at the
    // interrupt time and exits cleanly
    let mut reports: Vec<LoopRunReport> = Vec::new();
    let mut outcomes: Vec<TaskOutcome> = Vec::new();
    let mut idx: usize = 0;
    while idx < n
        invariant
            n == specs@.len(),
            specs@.len() == behaviors@.len(),
            observers@.len() == n,
            idx <= n,
            broadcaster.spec_fired(),
            forall|i: int| 0 <= i < specs@.len() ==> (#[trigger] specs@[i]).wf(),
            forall|i: int|
                0 <= i < specs@.len() ==> interrupt_at
                    <= u64::MAX - (#[trigger] specs@[i]).interval_ms,
            reports@.len() == idx,
            outcomes@.len() == idx,
            forall|i: int|
                0 <= i < idx ==> #[trigger] reports@[i] == orchestration_entry(
                    specs@[i],
                    behaviors@[i],
                    interrupt_at,
                ),
            forall|i: int| 0 <= i < idx ==> #[trigger] outcomes@[i] == TaskOutcome::Stopped,
        decreases n - idx,
    {
        let stop_seen = observers[idx].sees_stop(&broadcaster);
        let fire_at = if stop_seen {
            Some(interrupt_at)
        } else {
            None
        };
        assert(stop_seen);
        let rep = run_loop_sim(&specs[idx], behaviors[idx], fire_at, interrupt_at);
        reports.push(rep);
        outcomes.push(outcome_of_join(None));
        idx = idx + 1;
    }
    OrchestrationResult { reports, outcomes }
}

/// Liveness across the whole run: whatever each loop's data source does,
/// every loop of an orchestration interrupted at `interrupt_at` ends
/// stopped, at the interrupt time itself — within one tick of it.
pub proof fn lemma_all_loops_stop(
    specs: Seq<LoopSpec>,
    behaviors: Seq<SourceBehavior>,
    interrupt_at: u64,
)
    requires
        specs.len() == behaviors.len(),
        forall|i: int| 0 <= i < specs.len() ==> (#[trigger] specs[i]).wf(),
    ensures
        forall|i: int|
            0 <= i < specs.len() ==> (#[trigger] orchestration_entry(
                specs[i],
                behaviors[i],
                interrupt_at,
            )).state.phase == Phase::Stopped,
        forall|i: int|
            0 <= i < specs.len() ==> (#[trigger] orchestration_entry(
                specs[i],
                behaviors[i],
                interrupt_at,
            )).stopped_at == Some(interrupt_at),
{
}

/// Error isolation: a loop's entry in an orchestration run is untouched by
/// the other loops' data sources. Two runs whose behavior assignments
/// agree on loop `j` — one of them may give every other loop a source that
/// always fails to decode — give loop `j` the same report; in particular a
/// sibling's failures never stop or fail loop `j`.
pub proof fn lemma_error_isolation(
    specs: Seq<LoopSpec>,
    behaviors1: Seq<SourceBehavior>,
    behaviors2: Seq<SourceBehavior>,
    interrupt_at: u64,
    j: int,
)
    requires
        0 <= j < specs.len(),
        behaviors1.len() == specs.len(),
        behaviors2.len() == specs.len(),
        behaviors1[j] == behaviors2[j],
    ensures
        orchestration_entry(specs[j], behaviors1[j], interrupt_at) == orchestration_entry(
            specs[j],
            behaviors2[j],
            interrupt_at,
        ),
{
}

/// The three loop specs of the all-data view for one product: order book,
/// market trades and specific product, concurrently, each on its own
/// interval, sharing the product id.
pub fn all_data_specs(product_id: &str) -> (v: Vec<LoopSpec>)
    ensures
        v@.len() == 3,
        v@[0].kind == DataKind::OrderBook && v@[0].interval_ms == ORDER_BOOK_INTERVAL_MS
            && v@[0].product_id@ == product_id@,
        v@[1].kind == DataKind::Trades && v@[1].interval_ms == TRADES_INTERVAL_MS
            && v@[1].product_id@ == product_id@,
        v@[2].kind == DataKind::SpecificProduct && v@[2].interval_ms
            == SPECIFIC_PRODUCT_INTERVAL_MS && v@[2].product_id@ == product_id@,
        forall|i: int| 0 <= i < v@.len() ==> (#[trigger] v@[i]).wf(),
{
    let mut v: Vec<LoopSpec> = Vec::new();
    v.push(LoopSpec {
        kind: DataKind::OrderBook,
        product_id: product_id.to_owned(),
        interval_ms: ORDER_BOOK_INTERVAL_MS,
    });
    v.push(LoopSpec {
        kind: DataKind::Trades,
        product_id: product_id.to_owned(),
        interval_ms: TRADES_INTERVAL_MS,
    });
    v.push(LoopSpec {
        kind: DataKind::SpecificProduct,
        product_id: product_id.to_owned(),
        interval_ms: SPECIFIC_PRODUCT_INTERVAL_MS,
    });
    v
}

/// The positions of the failed outcomes in a run's aggregation, oldest
/// first: `failed_indices(s)` lists exactly the indices of `s` whose
/// outcome is `Failed`.
pub open spec fn failed_indices(s: Seq<TaskOutcome>) -> Seq<int>
    decreases s.len(),
{
    if s.len() == 0 {
        Seq::empty()
    } else {
        let pre = failed_indices(s.drop_last());
        if s.last() is Failed {
            pre.push(s.len() - 1)
        } else {
            pre
        }
    }
}

/// Surface the failures of a finished run: the indices of the loops whose
/// outcome is `Failed`, in order, for the caller to report each error once
/// after shutdown.
pub fn collect_failures(outcomes: &Vec<TaskOutcome>) -> (r: Vec<usize>)
    ensures
        r@.map_values(|x: usize| x as int) == failed_indices(outcomes@),
{
    let mut r: Vec<usize> = Vec::new();
    let n = outcomes.len();
    let mut idx: usize = 0;
    while idx < n
        invariant
            n == outcomes@.len(),
            idx <= n,
            r@.map_values(|x: usize| x as int) == failed_indices(outcomes@.take(idx as int)),
        decreases n - idx,
    {
        let failed = match &outcomes[idx] {
            TaskOutcome::Stopped => false,
            TaskOutcome::Failed(_) => true,
        };
        proof {
            assert(outcomes@.take(idx as int + 1).drop_last() =~= outcomes@.take(idx as int));
            assert(outcomes@.take(idx as int + 1).last() == outcomes@[idx as int]);
        }
        if failed {
            r.push(idx);
            proof {
                assert(r@.map_values(|x: usize| x as int) =~= failed_indices(
                    outcomes@.take(idx as int + 1),
                ));
            }
        } else {
            proof {
                assert(r@.map_values(|x: usize| x as int) =~= failed_indices(
                    outcomes@.take(idx as int + 1),
                ));
            }
        }
        idx = idx + 1;
    }
    proof {
        assert(outcomes@.take(n as int) =~= outcomes@);
    }
    r
}

} // verus!
