//! One polling loop: the state machine that drives a single
//! fetch-and-render cycle on a fixed interval until told to stop.
//!
//! The loop's decisions are the verified [`step`] function: from the
//! current [`LoopState`] and one [`LoopEvent`] it yields the next state and
//! the [`LoopAction`] the driver must perform. A driver — the simulated
//! clock of [`run_loop_sim`], or a real timer-and-network runtime — only
//! delivers events and carries out actions; every decision is made here.
//!
//! Per-tick fetch errors (transport or decode) are logged and the loop
//! keeps running; only the stop signal ends it cleanly.

use vstd::prelude::*;

verus! {

use vstd::arithmetic::div_mod::lemma_fundamental_div_mod_converse;

/// The kind of market data one polling loop fetches and renders.
#[derive(Clone, Copy, PartialEq, Eq, Structural, Debug)]
pub enum DataKind {
    Products,
    ServerTime,
    OrderBook,
    Candles,
    Trades,
    SpecificProduct,
}

/// What one polling loop is told to do, fixed before the loop starts: the
/// data kind, the product the fetches ask about, and the poll interval.
#[derive(Clone, Debug)]
pub struct LoopSpec {
    pub kind: DataKind,
    pub product_id: String,
    pub interval_ms: u64,
}

impl LoopSpec {
    /// A usable spec: the interval must be a positive number of
    /// milliseconds, else the loop would never suspend between ticks.
    pub open spec fn wf(self) -> bool {
        self.interval_ms >= 1
    }
}

/// A fetch attempt's failure, as the fetch layer reports it: the transport
/// failed, or the response did not match the expected shape. Both are
/// non-fatal to the loop.
#[derive(Clone, Copy, PartialEq, Eq, Structural, Debug)]
pub enum FetchError {
    Transport,
    Decode,
}

/// Where one polling loop stands in its life.
#[derive(Clone, Copy, PartialEq, Eq, Structural, Debug)]
pub enum Phase {
    /// Ticking: fetching and rendering on each interval.
    Running,
    /// Terminal: exited cleanly on the stop signal.
    Stopped,
    /// Terminal: the task mechanics running the loop broke down. Ordinary
    /// fetch errors never lead here.
    Failed,
}

/// The observable state of one polling loop: its phase and the counters a
/// run accumulates.
#[derive(Clone, Copy, PartialEq, Eq, Structural, Debug)]
pub struct LoopState {
    pub phase: Phase,
    /// Fetch calls issued so far.
    pub fetches: u64,
    /// Successful results handed to the renderer so far.
    pub renders: u64,
    /// Fetch errors logged so far; each left the loop running.
    pub errors: u64,
    /// A fetch has been started whose outcome has not come back yet.
    pub in_flight: bool,
}

impl LoopState {
    /// The state a loop starts in.
    pub open spec fn initial_spec() -> LoopState {
        LoopState { phase: Phase::Running, fetches: 0, renders: 0, errors: 0, in_flight: false }
    }

    /// The state a loop starts in: running, nothing counted yet.
    pub fn initial() -> (s: LoopState)
        ensures
            s == LoopState::initial_spec(),
    {
        LoopState { phase: Phase::Running, fetches: 0, renders: 0, errors: 0, in_flight: false }
    }
}

/// One thing a running loop can observe: the events its driver delivers.
#[derive(Clone, Copy, PartialEq, Eq, Structural, Debug)]
pub enum LoopEvent {
    /// The stop observer reports the broadcast signal. May arrive at any
    /// suspension point, even with a fetch in flight.
    StopObserved,
    /// The interval timer elapsed; time for the next tick.
    IntervalElapsed,
    /// The fetch started at the last tick came back with a result that was
    /// handed on.
    FetchSucceeded,
    /// The fetch started at the last tick failed; the error is logged and
    /// the loop keeps going.
    FetchFailed(FetchError),
}

/// What the driver must do after a step.
#[derive(Clone, Copy, PartialEq, Eq, Structural, Debug)]
pub enum LoopAction {
    /// Issue one fetch for the loop's spec.
    StartFetch,
    /// Hand the fetched result to the renderer.
    Render,
    /// Report the fetch error to the user-visible log and keep looping.
    LogError(FetchError),
    /// The loop is done; return its outcome.
    Exit,
}

/// When an event may be delivered: only to a running loop, timer ticks only
/// between fetches, fetch outcomes only for a fetch in flight. The counter
/// bounds are machine limits, kept by every driver in this crate.
pub open spec fn event_allowed(s: LoopState, e: LoopEvent) -> bool {
    &&& s.phase == Phase::Running
    &&& match e {
        LoopEvent::StopObserved => true,
        LoopEvent::IntervalElapsed => !s.in_flight && s.fetches < u64::MAX,
        LoopEvent::FetchSucceeded => s.in_flight && s.renders < u64::MAX,
        LoopEvent::FetchFailed(_) => s.in_flight && s.errors < u64::MAX,
    }
}

/// The loop's whole decision table: next state and required action for a
/// running loop seeing one event. The stop signal ends the loop at once,
/// whatever is in flight; a timer tick issues exactly one fetch; a fetch
/// error is logged and leaves the loop running.
pub open spec fn step_spec(s: LoopState, e: LoopEvent) -> (LoopState, LoopAction) {
    match e {
        LoopEvent::StopObserved => (
            LoopState { phase: Phase::Stopped, ..s },
            LoopAction::Exit,
        ),
        LoopEvent::IntervalElapsed => (
            LoopState { fetches: (s.fetches + 1) as u64, in_flight: true, ..s },
            LoopAction::StartFetch,
        ),
        LoopEvent::FetchSucceeded => (
            LoopState { renders: (s.renders + 1) as u64, in_flight: false, ..s },
            LoopAction::Render,
        ),
        LoopEvent::FetchFailed(err) => (
            LoopState { errors: (s.errors + 1) as u64, in_flight: false, ..s },
            LoopAction::LogError(err),
        ),
    }
}

/// Advance one polling loop by one event and say what the driver must do
/// next.
pub fn step(state: &mut LoopState, event: LoopEvent) -> (a: LoopAction)
    requires
        event_allowed(*old(state), event),
    ensures
        *final(state) == step_spec(*old(state), event).0,
        a == step_spec(*old(state), event).1,
{
    match event {
        LoopEvent::StopObserved => {
            state.phase = Phase::Stopped;
            LoopAction::Exit
        },
        LoopEvent::IntervalElapsed => {
            state.fetches = state.fetches + 1;
            state.in_flight = true;
            LoopAction::StartFetch
        },
        LoopEvent::FetchSucceeded => {
            state.renders = state.renders + 1;
            state.in_flight = false;
            LoopAction::Render
        },
        LoopEvent::FetchFailed(err) => {
            state.errors = state.errors + 1;
            state.in_flight = false;
            LoopAction::LogError(err)
        },
    }
}

/// How a simulated data source answers every fetch of one run. The three
/// behaviors cover the cases the loop distinguishes: success handed to the
/// renderer, and the two non-fatal failure kinds.
#[derive(Clone, Copy, PartialEq, Eq, Structural, Debug)]
pub enum SourceBehavior {
    AlwaysOk,
    AlwaysTransport,
    AlwaysDecode,
}

/// How many ticks a loop with this interval performs strictly before time
/// `t`: the ticks at `interval, 2*interval, ...` that fall in `(0, t)`.
pub open spec fn ticks_before(t: u64, interval: u64) -> int
    recommends
        interval >= 1,
{
    if t == 0 {
        0
    } else {
        (t - 1) as int / interval as int
    }
}

/// How many ticks a loop with this interval performs up to and including
/// time `h`: the ticks at `interval, 2*interval, ...` that fall in `(0, h]`.
pub open spec fn ticks_through(h: u64, interval: u64) -> int
    recommends
        interval >= 1,
{
    h as int / interval as int
}

/// Whether the stop signal fires inside the simulated window, so that the
/// loop observes it before the simulation ends.
pub open spec fn fires_in_window(fire_at: Option<u64>, horizon: u64) -> bool {
    match fire_at {
        Some(f) => f <= horizon,
        None => false,
    }
}

/// The fetch calls a simulated run issues: one per tick until the stop
/// signal fires — the tick that coincides with the fire is already
/// preempted by the stop — or, with no stop in the window, one per tick
/// through the horizon, and none in between.
pub open spec fn sim_fetches(interval: u64, fire_at: Option<u64>, horizon: u64) -> int
    recommends
        interval >= 1,
{
    match fire_at {
        Some(f) => if f <= horizon {
            ticks_before(f, interval)
        } else {
            ticks_through(horizon, interval)
        },
        None => ticks_through(horizon, interval),
    }
}

/// What one simulated run of a polling loop leaves behind: the loop's final
/// state and, if it stopped, the simulated time at which it did.
#[derive(Clone, Copy, PartialEq, Debug)]
pub struct LoopRunReport {
    pub state: LoopState,
    pub stopped_at: Option<u64>,
}

/// The whole report of a simulated run, as a function of the source's
/// behavior, the loop's interval, the fire time of the stop signal and the
/// simulated horizon: [`run_loop_sim`] returns exactly this.
pub open spec fn loop_sim_report(
    behavior: SourceBehavior,
    interval: u64,
    fire_at: Option<u64>,
    horizon: u64,
) -> LoopRunReport {
    let n = sim_fetches(interval, fire_at, horizon) as u64;
    let stopped = fires_in_window(fire_at, horizon);
    LoopRunReport {
        state: LoopState {
            phase: if stopped {
                Phase::Stopped
            } else {
                Phase::Running
            },
            fetches: n,
            renders: if behavior == SourceBehavior::AlwaysOk {
                n
            } else {
                0
            },
            errors: if behavior == SourceBehavior::AlwaysOk {
                0
            } else {
                n
            },
            in_flight: false,
        },
        stopped_at: if stopped {
            fire_at
        } else {
            None
        },
    }
}

/// Run one polling loop against a simulated clock: ticks at each multiple
/// of the interval, a data source that answers per `behavior`, and a stop
/// signal that fires at `fire_at` (if inside the window that ends at
/// `horizon`). Between ticks the loop is suspended and issues nothing; the
/// stop signal preempts the tick it coincides with and ends the loop at
/// once. Fetch errors are counted and the loop keeps running, so a run
/// whose signal never fires ends still in the running phase.
pub fn run_loop_sim(
    spec: &LoopSpec,
    behavior: SourceBehavior,
    fire_at: Option<u64>,
    horizon: u64,
) -> (r: LoopRunReport)
    requires
        spec.wf(),
        horizon <= u64::MAX - spec.interval_ms,
    ensures
        r == loop_sim_report(behavior, spec.interval_ms, fire_at, horizon),
{
    let interval = spec.interval_ms;
    let fire_in_window: bool = match fire_at {
        Some(f) => f <= horizon,
        None => false,
    };
    let fire_time: u64 = match fire_at {
        Some(f) => f,
        None => 0,
    };
    let mut st = LoopState::initial();
    let mut next_wake: u64 = interval;
    let mut stopped_at: Option<u64> = None;
    proof {
        assert(interval as int * (st.fetches as int + 1) == interval as int) by (nonlinear_arith)
            requires
                st.fetches as int == 0,
        ;
    }

    loop
        invariant_except_break
            st.phase == Phase::Running,
            stopped_at is None,
            next_wake as int == interval as int * (st.fetches as int + 1),
            st.fetches as int * interval as int <= horizon as int,
            fire_in_window ==> (st.fetches == 0 || (st.fetches as int * interval as int)
                < fire_time as int),
        invariant
            interval >= 1,
            interval == spec.interval_ms,
            horizon <= u64::MAX - interval,
            fire_in_window == fires_in_window(fire_at, horizon),
            fire_in_window ==> fire_at == Some(fire_time),
            !st.in_flight,
            st.renders == if behavior == SourceBehavior::AlwaysOk { st.fetches } else { 0u64 },
            st.errors == if behavior == SourceBehavior::AlwaysOk { 0u64 } else { st.fetches },
        ensures
            !st.in_flight,
            st.renders == if behavior == SourceBehavior::AlwaysOk { st.fetches } else { 0u64 },
            st.errors == if behavior == SourceBehavior::AlwaysOk { 0u64 } else { st.fetches },
            fire_in_window == fires_in_window(fire_at, horizon),
            fire_in_window ==> st.phase == Phase::Stopped && stopped_at == Some(fire_time)
                && fire_at == Some(fire_time) && st.fetches as int == ticks_before(
                fire_time,
                interval,
            ),
            !fire_in_window ==> st.phase == Phase::Running && stopped_at is None
                && st.fetches as int == ticks_through(horizon, interval),
        decreases horizon + interval - next_wake,
    {
        if fire_in_window && fire_time <= next_wake {
            let _ = step(&mut st, LoopEvent::StopObserved);
            stopped_at = Some(fire_time);
            proof {
                let k = (st.fetches as int);
                let i = (interval as int);
                let f = (fire_time as int);
                assert(i * (k + 1) == k * i + i) by (nonlinear_arith);
                if f == 0 {
                    assert(k == 0);
                } else {
                    assert(k * i <= f - 1);
                    assert(f - 1 < k * i + i);
                    lemma_fundamental_div_mod_converse(f - 1, i, k, f - 1 - k * i);
                }
            }
            break;
        }
        if next_wake > horizon {
            proof {
                let k = (st.fetches as int);
                let i = (interval as int);
                let h = (horizon as int);
                assert(i * (k + 1) == k * i + i) by (nonlinear_arith);
                assert(k * i <= h);
                assert(h < k * i + i);
                lemma_fundamental_div_mod_converse(h, i, k, h - k * i);
            }
            break;
        }
        proof {
            assert(st.fetches as int + 1 <= next_wake as int) by (nonlinear_arith)
                requires
                    interval as int >= 1,
                    next_wake as int == interval as int * (st.fetches as int + 1),
                    st.fetches as int >= 0,
            ;
        }
        let _ = step(&mut st, LoopEvent::IntervalElapsed);
        match behavior {
            SourceBehavior::AlwaysOk => {
                let _ = step(&mut st, LoopEvent::FetchSucceeded);
            },
            SourceBehavior::AlwaysTransport => {
                let _ = step(&mut st, LoopEvent::FetchFailed(FetchError::Transport));
            },
            SourceBehavior::AlwaysDecode => {
                let _ = step(&mut st, LoopEvent::FetchFailed(FetchError::Decode));
            },
        }
        proof {
            let i = (interval as int);
            let kp = (st.fetches as int);
            assert(kp * i == i * kp) by (nonlinear_arith);
            assert(i * (kp + 1) == i * kp + i) by (nonlinear_arith);
        }
        next_wake = next_wake + interval;
    }
    let r = LoopRunReport { state: st, stopped_at };
    proof {
        assert(r == loop_sim_report(behavior, spec.interval_ms, fire_at, horizon));
    }
    r
}

/// Liveness of shutdown: a stop signal fired inside the window ends the
/// simulated loop, at the fire time itself — well within the one-interval
/// bound — with no fetch issued at or after the fire.
pub proof fn lemma_stop_liveness(
    behavior: SourceBehavior,
    interval: u64,
    f: u64,
    horizon: u64,
)
    requires
        interval >= 1,
        f <= horizon,
    ensures
        loop_sim_report(behavior, interval, Some(f), horizon).state.phase == Phase::Stopped,
        loop_sim_report(behavior, interval, Some(f), horizon).stopped_at == Some(f),
        loop_sim_report(behavior, interval, Some(f), horizon).state.fetches as int
            == ticks_before(f, interval),
{
}

/// No busy spin: while the clock moves inside one interval window and no
/// stop fires, the fetch counter does not move — between ticks the loop
/// issues zero fetch calls.
pub proof fn lemma_no_busy_spin(behavior: SourceBehavior, interval: u64, t1: u64, t2: u64)
    requires
        interval >= 1,
        t1 <= t2,
        t1 as int / interval as int == t2 as int / interval as int,
    ensures
        loop_sim_report(behavior, interval, None, t1).state.fetches == loop_sim_report(
            behavior,
            interval,
            None,
            t2,
        ).state.fetches,
{
}

/// Per-tick fetch errors are not fatal: after a failed fetch the loop is
/// still running, only its error count moved, and the required action is to
/// log and go on — never to exit.
pub proof fn lemma_fetch_error_keeps_running(s: LoopState, err: FetchError)
    requires
        event_allowed(s, LoopEvent::FetchFailed(err)),
    ensures
        step_spec(s, LoopEvent::FetchFailed(err)).0.phase == Phase::Running,
        step_spec(s, LoopEvent::FetchFailed(err)).0.errors == s.errors + 1,
        step_spec(s, LoopEvent::FetchFailed(err)).0.fetches == s.fetches,
        step_spec(s, LoopEvent::FetchFailed(err)).1 == LoopAction::LogError(err),
{
}

} // verus!
