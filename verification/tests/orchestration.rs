use market_poller::menu::{
    menu_action, products_view_choice, session_decision, MenuAction, ProductsView, SessionDirective,
    SessionEvent,
};
use market_poller::orchestrator::{
    all_data_specs, collect_failures, outcome_of_join, run_orchestration_sim, TaskOutcome,
};
use market_poller::polling::{
    run_loop_sim, step, DataKind, FetchError, LoopAction, LoopEvent, LoopSpec, LoopState, Phase,
    SourceBehavior,
};
use market_poller::signal::CancellationBroadcaster;

fn spec_with_interval(interval_ms: u64) -> LoopSpec {
    LoopSpec { kind: DataKind::Trades, product_id: "BTC-USD".to_string(), interval_ms }
}

#[test]
fn fire_is_idempotent() {
    let mut once = CancellationBroadcaster::new();
    once.fire();
    let mut twice = CancellationBroadcaster::new();
    twice.fire();
    twice.fire();
    assert_eq!(once.is_fired(), twice.is_fired());
    let o1 = once.subscribe();
    let o2 = twice.subscribe();
    assert_eq!(o1.sees_stop(&once), o2.sees_stop(&twice));
    assert!(twice.is_fired());
}

#[test]
fn late_subscriber_sees_stop_immediately() {
    let mut b = CancellationBroadcaster::new();
    let early = b.subscribe();
    assert!(!early.sees_stop(&b));
    b.fire();
    let late = b.subscribe();
    assert!(late.sees_stop(&b));
    assert!(early.sees_stop(&b));
}

#[test]
fn stop_preempts_in_flight_fetch() {
    let mut st = LoopState::initial();
    assert_eq!(step(&mut st, LoopEvent::IntervalElapsed), LoopAction::StartFetch);
    assert!(st.in_flight);
    assert_eq!(step(&mut st, LoopEvent::StopObserved), LoopAction::Exit);
    assert_eq!(st.phase, Phase::Stopped);
}

#[test]
fn fetch_error_keeps_loop_running() {
    let mut st = LoopState::initial();
    let _ = step(&mut st, LoopEvent::IntervalElapsed);
    let action = step(&mut st, LoopEvent::FetchFailed(FetchError::Decode));
    assert_eq!(action, LoopAction::LogError(FetchError::Decode));
    assert_eq!(st.phase, Phase::Running);
    assert_eq!(st.errors, 1);
    assert_eq!(st.renders, 0);
}

#[test]
fn three_ticks_then_stop_and_no_fourth_call() {
    // One loop, 10ms interval, success every call: after 35ms of simulated
    // time exactly three fetches happened (ticks at 10/20/30), and firing
    // the stop at 35ms yields a stopped outcome with no fourth call.
    let spec = spec_with_interval(10);
    let r = run_loop_sim(&spec, SourceBehavior::AlwaysOk, Some(35), 35);
    assert_eq!(r.state.fetches, 3);
    assert_eq!(r.state.renders, 3);
    assert_eq!(r.state.errors, 0);
    assert_eq!(r.state.phase, Phase::Stopped);
    assert_eq!(r.stopped_at, Some(35));
}

#[test]
fn no_fetch_during_idle_part_of_interval() {
    // The fetch counter stays constant over the idle portion of an
    // interval: moving the horizon within one window adds no call.
    let spec = spec_with_interval(10);
    let at_tick = run_loop_sim(&spec, SourceBehavior::AlwaysOk, None, 30);
    for h in 30..40 {
        let idle = run_loop_sim(&spec, SourceBehavior::AlwaysOk, None, h);
        assert_eq!(idle.state.fetches, at_tick.state.fetches);
    }
    let next = run_loop_sim(&spec, SourceBehavior::AlwaysOk, None, 40);
    assert_eq!(next.state.fetches, at_tick.state.fetches + 1);
}

#[test]
fn transport_errors_five_ticks_still_running() {
    // A candles source that always fails with a transport error: after 5
    // ticks the loop has logged 5 errors and is still running, not failed.
    let spec = LoopSpec {
        kind: DataKind::Candles,
        product_id: "BTC-USD".to_string(),
        interval_ms: 100,
    };
    let r = run_loop_sim(&spec, SourceBehavior::AlwaysTransport, None, 500);
    assert_eq!(r.state.errors, 5);
    assert_eq!(r.state.fetches, 5);
    assert_eq!(r.state.renders, 0);
    assert_eq!(r.state.phase, Phase::Running);
    assert_eq!(r.stopped_at, None);
}

#[test]
fn all_loops_stop_within_one_tick_of_fire() {
    // Liveness: however many loops run, firing stops them all, each at the
    // fire time itself.
    for n in 1..6usize {
        let specs: Vec<LoopSpec> = (0..n).map(|i| spec_with_interval(10 * (i as u64 + 1))).collect();
        let behaviors = vec![SourceBehavior::AlwaysOk; n];
        let r = run_orchestration_sim(&specs, &behaviors, 123);
        assert_eq!(r.outcomes.len(), n);
        assert!(r.outcomes.iter().all(|o| *o == TaskOutcome::Stopped));
        for rep in &r.reports {
            assert_eq!(rep.state.phase, Phase::Stopped);
            let stopped_at = rep.stopped_at.unwrap();
            assert_eq!(stopped_at, 123);
        }
    }
}

#[test]
fn orchestrated_all_data_run_stops_all_three() {
    // Three loops (order book, trades, specific product) sharing one
    // product id: after the interrupt the result has exactly 3 entries,
    // all stopped.
    let specs = all_data_specs("ETH-USD");
    assert_eq!(specs.len(), 3);
    assert_eq!(specs[0].kind, DataKind::OrderBook);
    assert_eq!(specs[0].interval_ms, 750);
    assert_eq!(specs[1].kind, DataKind::Trades);
    assert_eq!(specs[1].interval_ms, 300);
    assert_eq!(specs[2].kind, DataKind::SpecificProduct);
    assert_eq!(specs[2].interval_ms, 50);
    for s in &specs {
        assert_eq!(s.product_id, "ETH-USD");
    }
    let behaviors = vec![SourceBehavior::AlwaysOk; 3];
    let r = run_orchestration_sim(&specs, &behaviors, 10_000);
    assert_eq!(r.outcomes.len(), 3);
    assert!(r.outcomes.iter().all(|o| *o == TaskOutcome::Stopped));
}

#[test]
fn failing_source_never_touches_sibling_loop() {
    // Error isolation: loop A always fails to decode; loop B's report is
    // identical to what it is beside a healthy A, and B never stops early.
    let specs = vec![spec_with_interval(10), spec_with_interval(25)];
    let healthy = vec![SourceBehavior::AlwaysOk, SourceBehavior::AlwaysOk];
    let broken_a = vec![SourceBehavior::AlwaysDecode, SourceBehavior::AlwaysOk];
    let r1 = run_orchestration_sim(&specs, &healthy, 200);
    let r2 = run_orchestration_sim(&specs, &broken_a, 200);
    assert_eq!(r1.reports[1], r2.reports[1]);
    assert_eq!(r2.outcomes[1], TaskOutcome::Stopped);
    assert_eq!(r2.reports[1].state.phase, Phase::Stopped);
    assert_eq!(r2.reports[1].state.errors, 0);
    // the broken loop itself only logged errors and still stopped cleanly
    assert_eq!(r2.reports[0].state.errors, r2.reports[0].state.fetches);
    assert_eq!(r2.outcomes[0], TaskOutcome::Stopped);
}

#[test]
fn zero_specs_give_empty_result_immediately() {
    let r = run_orchestration_sim(&Vec::new(), &Vec::new(), 0);
    assert_eq!(r.outcomes.len(), 0);
    assert_eq!(r.reports.len(), 0);
}

#[test]
fn fire_at_time_zero_stops_before_first_tick() {
    let spec = spec_with_interval(10);
    let r = run_loop_sim(&spec, SourceBehavior::AlwaysOk, Some(0), 100);
    assert_eq!(r.state.fetches, 0);
    assert_eq!(r.state.phase, Phase::Stopped);
    assert_eq!(r.stopped_at, Some(0));
}

#[test]
fn fire_on_tick_boundary_preempts_that_tick() {
    let spec = spec_with_interval(10);
    let r = run_loop_sim(&spec, SourceBehavior::AlwaysOk, Some(30), 30);
    assert_eq!(r.state.fetches, 2);
    assert_eq!(r.state.phase, Phase::Stopped);
}

#[test]
fn join_results_map_to_outcomes() {
    assert_eq!(outcome_of_join(None), TaskOutcome::Stopped);
    assert_eq!(
        outcome_of_join(Some("task panicked".to_string())),
        TaskOutcome::Failed("task panicked".to_string())
    );
}

#[test]
fn failures_are_collected_in_order() {
    let outcomes = vec![
        TaskOutcome::Stopped,
        TaskOutcome::Failed("a".to_string()),
        TaskOutcome::Stopped,
        TaskOutcome::Failed("b".to_string()),
    ];
    assert_eq!(collect_failures(&outcomes), vec![1, 3]);
    assert_eq!(collect_failures(&vec![]), Vec::<usize>::new());
    assert_eq!(
        collect_failures(&vec![TaskOutcome::Stopped, TaskOutcome::Stopped]),
        Vec::<usize>::new()
    );
}

#[test]
fn menu_choices_map_to_operations() {
    assert_eq!(menu_action(1), MenuAction::FetchProducts);
    assert_eq!(menu_action(2), MenuAction::FetchServerTime);
    assert_eq!(menu_action(3), MenuAction::PollOrderBook);
    assert_eq!(menu_action(4), MenuAction::FetchCandles);
    assert_eq!(menu_action(5), MenuAction::PollTrades);
    assert_eq!(menu_action(6), MenuAction::PollSpecificProduct);
    assert_eq!(menu_action(7), MenuAction::PollAllData);
    assert_eq!(menu_action(8), MenuAction::Exit);
    assert_eq!(menu_action(0), MenuAction::Invalid);
    assert_eq!(menu_action(9), MenuAction::Invalid);
    assert_eq!(menu_action(255), MenuAction::Invalid);
}

#[test]
fn products_view_choices() {
    assert_eq!(products_view_choice(1), ProductsView::Synthetic);
    assert_eq!(products_view_choice(2), ProductsView::Complete);
    assert_eq!(products_view_choice(0), ProductsView::AskAgain);
    assert_eq!(products_view_choice(3), ProductsView::AskAgain);
}

#[test]
fn session_reacts_to_events() {
    assert_eq!(session_decision(SessionEvent::Interrupted), SessionDirective::FireJoinAndExit);
    assert_eq!(session_decision(SessionEvent::TaskFinished), SessionDirective::ReportAndRestart);
}
