use hedged_rpc_client::client::{reject_stale, without_provider};
use hedged_rpc_client::{
    AccountResponse, HedgeConfig, HedgeCore, HedgeRace, HedgedError, ProviderConfig, ProviderId, RaceAction,
    RaceEvent, Settled, TransportError,
};

/// What one simulated call did.
struct Run<T> {
    result: Result<(ProviderId, T), HedgedError>,
    /// When each provider was contacted, in ms after the start; `None` if never.
    launched_at: Vec<Option<u64>>,
    /// Providers whose attempt ran to completion before the race ended.
    completed: Vec<bool>,
    elapsed: u64,
}

const NAMES: [&str; 5] = ["a", "b", "c", "d", "e"];

fn providers(n: usize) -> Vec<ProviderConfig> {
    (0..n)
        .map(|i| ProviderConfig { id: ProviderId(NAMES[i]), url: format!("http://{}.example", NAMES[i]) })
        .collect()
}

fn config(initial: usize, hedge_after_ms: u64, max: usize, timeout_ms: u64) -> HedgeConfig {
    HedgeConfig {
        initial_providers: initial,
        hedge_after_ms,
        max_providers: max,
        min_slot: None,
        overall_timeout_ms: timeout_ms,
    }
}

/// Drives one call against simulated providers: provider `i` answers
/// `plan[i].1` after `plan[i].0` ms. `post` sees the settled race before the
/// statistics are committed.
fn simulate<T: Clone>(
    core: &mut HedgeCore,
    plan: &[(u64, Result<T, TransportError>)],
    post: impl Fn(Settled<T>) -> Settled<T>,
) -> Run<T> {
    let mut launched_at: Vec<Option<u64>> = vec![None; plan.len()];
    let mut completed = vec![false; plan.len()];
    let mut race: HedgeRace<T> = match core.begin_call() {
        Ok(race) => race,
        Err(e) => return Run { result: Err(e), launched_at, completed, elapsed: 0 },
    };
    for slot in launched_at.iter_mut().take(race.launched()) {
        *slot = Some(0);
    }
    let mut now: u64;
    loop {
        let next = (0..plan.len())
            .filter(|&i| launched_at[i].is_some() && !completed[i])
            .map(|i| (launched_at[i].unwrap() + plan[i].0, i))
            .min();
        let wake = race.next_wake_ms();
        let action = match next {
            Some((t, i)) if t <= wake => {
                now = t;
                completed[i] = true;
                race.step(RaceEvent::Finished { index: i, result: plan[i].1.clone() }, t)
            }
            _ => {
                now = wake;
                race.step(RaceEvent::Tick, wake)
            }
        };
        match action {
            RaceAction::Launch { from, to } => {
                for slot in &mut launched_at[from..to] {
                    *slot = Some(now);
                }
            }
            RaceAction::Wait => {}
            RaceAction::Stop => break,
        }
    }
    assert!(race.is_over());
    let settled = post(race.settle());
    let result = core.finish_call(settled, now);
    Run { result, launched_at, completed, elapsed: now }
}

fn keep<T>(s: Settled<T>) -> Settled<T> {
    s
}

fn stats_of(core: &HedgeCore, i: usize) -> (u64, u64, u64) {
    let s = core.provider_stats()[i].1;
    (s.wins, s.total_latency_ms, s.errors)
}

fn transport(msg: &str) -> TransportError {
    TransportError::Connection(msg.to_string())
}

#[test]
fn fast_winner_in_initial_wave() {
    let mut core = HedgeCore::new(&providers(2), config(2, 100, 2, 1000));
    let run = simulate(&mut core, &[(50, Ok(1u64)), (300, Ok(2u64))], keep);
    assert_eq!(run.result, Ok((ProviderId("a"), 1)));
    assert_eq!(run.elapsed, 50);
    assert_eq!(stats_of(&core, 0), (1, 50, 0));
    assert_eq!(stats_of(&core, 1), (0, 0, 0));
    assert_eq!(run.launched_at, vec![Some(0), Some(0)]);
    assert!(!run.completed[1]);
}

#[test]
fn hedge_saves_the_call() {
    let mut core = HedgeCore::new(&providers(2), config(1, 80, 2, 1000));
    let run = simulate(&mut core, &[(500, Ok(1u64)), (60, Ok(2u64))], keep);
    assert_eq!(run.result, Ok((ProviderId("b"), 2)));
    assert_eq!(run.elapsed, 140);
    assert_eq!(run.launched_at, vec![Some(0), Some(80)]);
    assert_eq!(stats_of(&core, 1), (1, 140, 0));
    assert_eq!(stats_of(&core, 0), (0, 0, 0));
}

#[test]
fn all_fail() {
    let mut core = HedgeCore::new(&providers(2), config(2, 100, 2, 1000));
    let run = simulate(&mut core, &[(30, Err::<u64, _>(transport("x"))), (40, Err(transport("y")))], keep);
    assert_eq!(
        run.result,
        Err(HedgedError::AllFailed(vec![(ProviderId("a"), transport("x")), (ProviderId("b"), transport("y"))]))
    );
    assert_eq!(run.elapsed, 40);
    assert_eq!(stats_of(&core, 0), (0, 0, 1));
    assert_eq!(stats_of(&core, 1), (0, 0, 1));
}

#[test]
fn all_fail_in_arrival_order() {
    let mut core = HedgeCore::new(&providers(2), config(2, 100, 2, 1000));
    let run = simulate(&mut core, &[(70, Err::<u64, _>(transport("x"))), (20, Err(transport("y")))], keep);
    assert_eq!(
        run.result,
        Err(HedgedError::AllFailed(vec![(ProviderId("b"), transport("y")), (ProviderId("a"), transport("x"))]))
    );
}

#[test]
fn overall_timeout() {
    let mut core = HedgeCore::new(&providers(2), config(2, 50, 2, 200));
    let run = simulate(&mut core, &[(5000, Ok(1u64)), (5000, Ok(2u64))], keep);
    assert_eq!(run.result, Err(HedgedError::Timeout(200)));
    assert_eq!(run.elapsed, 200);
    assert_eq!(stats_of(&core, 0), (0, 0, 1));
    assert_eq!(stats_of(&core, 1), (0, 0, 1));
}

#[test]
fn timeout_charges_providers_never_contacted() {
    let mut core = HedgeCore::new(&providers(3), config(1, 500, 3, 200));
    let run = simulate(&mut core, &[(5000, Ok(1u64)), (10, Ok(2u64)), (10, Ok(3u64))], keep);
    assert_eq!(run.result, Err(HedgedError::Timeout(200)));
    assert_eq!(run.launched_at, vec![Some(0), None, None]);
    for i in 0..3 {
        assert_eq!(stats_of(&core, i), (0, 0, 1));
    }
}

#[test]
fn freshness_violation() {
    let mut core = HedgeCore::new(&providers(1), config(1, 100, 1, 1000));
    let plan = [(40, Ok(AccountResponse { slot: 90u64, value: Some(7u64) }))];
    let run = simulate(&mut core, &plan, |s| reject_stale(s, 100));
    assert_eq!(
        run.result,
        Err(HedgedError::AllFailed(vec![(
            ProviderId("a"),
            TransportError::StaleResponse { min_slot: 100, got: 90 }
        )]))
    );
    assert_eq!(stats_of(&core, 0), (0, 0, 1));
}

#[test]
fn fresh_response_passes() {
    let mut core = HedgeCore::new(&providers(1), config(1, 100, 1, 1000));
    let plan = [(40, Ok(AccountResponse { slot: 100u64, value: Some(7u64) }))];
    let run = simulate(&mut core, &plan, |s| reject_stale(s, 100));
    let (id, resp) = run.result.unwrap();
    assert_eq!(id, ProviderId("a"));
    assert!(resp.slot >= 100);
    assert_eq!(stats_of(&core, 0), (1, 40, 0));
}

#[test]
fn prefix_respect() {
    let mut core = HedgeCore::new(&providers(5), config(1, 10, 2, 1000));
    let plan: Vec<(u64, Result<u64, TransportError>)> =
        vec![(5, Err(transport("a"))), (5, Err(transport("b"))), (1, Ok(3)), (1, Ok(4)), (1, Ok(5))];
    let run = simulate(&mut core, &plan, keep);
    match run.result {
        Err(HedgedError::AllFailed(f)) => {
            assert_eq!(f.len(), 2);
            assert_eq!(f[0].0, ProviderId("a"));
            assert_eq!(f[1].0, ProviderId("b"));
        }
        other => panic!("expected AllFailed, got {:?}", other),
    }
    assert_eq!(run.launched_at[2..], [None, None, None]);
    for i in 2..5 {
        assert_eq!(stats_of(&core, i), (0, 0, 0));
    }
}

#[test]
fn reserve_waits_for_hedge_delay() {
    let mut core = HedgeCore::new(&providers(3), config(1, 80, 3, 1000));
    let plan: Vec<(u64, Result<u64, TransportError>)> =
        vec![(10, Err(transport("a"))), (30, Err(transport("b"))), (30, Ok(9))];
    let run = simulate(&mut core, &plan, keep);
    assert_eq!(run.launched_at, vec![Some(0), Some(80), Some(80)]);
    assert_eq!(run.result, Ok((ProviderId("c"), 9)));
    assert_eq!(run.elapsed, 110);
    assert_eq!(stats_of(&core, 0), (0, 0, 0));
}

#[test]
fn initial_wave_clamped_to_providers() {
    let mut core = HedgeCore::new(&providers(2), config(5, 10, 2, 1000));
    let race: HedgeRace<u64> = core.begin_call().unwrap();
    assert_eq!(race.launched(), 2);
    assert_eq!(race.selected(), 2);
    assert_eq!(race.next_wake_ms(), 1000);
    let run = simulate(&mut core, &[(300, Ok(1u64)), (20, Ok(2u64))], keep);
    assert_eq!(run.launched_at, vec![Some(0), Some(0)]);
    assert_eq!(run.result, Ok((ProviderId("b"), 2)));
}

#[test]
fn zero_initial_wave_contacts_one() {
    let core = HedgeCore::new(&providers(3), config(0, 10, 3, 1000));
    let race: HedgeRace<u64> = core.begin_call().unwrap();
    assert_eq!(race.launched(), 1);
}

#[test]
fn zero_hedge_delay_launches_reserve_at_once() {
    let mut core = HedgeCore::new(&providers(3), config(1, 0, 3, 1000));
    let mut race: HedgeRace<u64> = core.begin_call().unwrap();
    assert_eq!(race.launched(), 1);
    assert_eq!(race.next_wake_ms(), 0);
    assert_eq!(race.step(RaceEvent::Tick, 0), RaceAction::Launch { from: 1, to: 3 });
    assert_eq!(race.launched(), 3);
    let run = simulate(&mut core, &[(50, Ok(1u64)), (20, Ok(2u64)), (30, Ok(3u64))], keep);
    assert_eq!(run.launched_at, vec![Some(0), Some(0), Some(0)]);
    assert_eq!(run.result, Ok((ProviderId("b"), 2)));
}

#[test]
fn zero_max_providers_is_no_providers() {
    let mut core = HedgeCore::new(&providers(3), config(1, 10, 0, 1000));
    let run = simulate(&mut core, &[(1, Ok(1u64)), (1, Ok(2u64)), (1, Ok(3u64))], keep);
    assert_eq!(run.result, Err(HedgedError::NoProviders));
    assert_eq!(run.launched_at, vec![None, None, None]);
}

#[test]
fn empty_provider_list_is_no_providers() {
    let mut core = HedgeCore::new(&Vec::new(), HedgeConfig::low_latency(0));
    let run = simulate::<u64>(&mut core, &[], keep);
    assert_eq!(run.result, Err(HedgedError::NoProviders));
    assert!(core.provider_stats().is_empty());
}

#[test]
fn stray_and_repeated_events_are_ignored() {
    let core = HedgeCore::new(&providers(2), config(1, 100, 2, 1000));
    let mut race: HedgeRace<u64> = core.begin_call().unwrap();
    assert_eq!(race.step(RaceEvent::Finished { index: 1, result: Ok(5) }, 10), RaceAction::Wait);
    assert_eq!(race.step(RaceEvent::Finished { index: 0, result: Err(transport("x")) }, 20), RaceAction::Wait);
    assert_eq!(race.step(RaceEvent::Finished { index: 0, result: Ok(1) }, 30), RaceAction::Wait);
    assert!(!race.is_over());
    assert_eq!(race.step(RaceEvent::Tick, 100), RaceAction::Launch { from: 1, to: 2 });
    assert_eq!(race.step(RaceEvent::Finished { index: 1, result: Err(transport("y")) }, 120), RaceAction::Stop);
    match race.settle() {
        Settled::AllFailed { failures } => assert_eq!(failures, vec![(0, transport("x")), (1, transport("y"))]),
        _ => panic!("expected all failed"),
    }
}

#[test]
fn win_at_deadline_is_timeout() {
    let core = HedgeCore::new(&providers(1), config(1, 100, 1, 200));
    let mut race: HedgeRace<u64> = core.begin_call().unwrap();
    assert_eq!(race.step(RaceEvent::Finished { index: 0, result: Ok(1) }, 200), RaceAction::Stop);
    assert!(matches!(race.settle(), Settled::TimedOut { selected: 1 }));
}

#[test]
fn wins_accumulate_latency() {
    let mut core = HedgeCore::new(&providers(2), config(2, 100, 2, 1000));
    simulate(&mut core, &[(50, Ok(1u64)), (300, Ok(2u64))], keep);
    simulate(&mut core, &[(30, Ok(1u64)), (300, Ok(2u64))], keep);
    simulate(&mut core, &[(90, Ok(1u64)), (20, Ok(2u64))], keep);
    let snap = core.provider_stats();
    assert_eq!(snap[0].0, ProviderId("a"));
    assert_eq!(snap[0].1.wins, 2);
    assert_eq!(snap[0].1.total_latency_ms, 80);
    assert_eq!(snap[0].1.avg_latency_ms, 40);
    assert_eq!(snap[1].1.wins, 1);
    assert_eq!(snap[1].1.avg_latency_ms, 20);
}

#[test]
fn snapshot_twice_is_identical() {
    let mut core = HedgeCore::new(&providers(3), config(1, 10, 3, 1000));
    simulate(&mut core, &[(5, Err::<u64, _>(transport("x"))), (20, Ok(2u64)), (50, Ok(3u64))], keep);
    let first = core.provider_stats();
    let second = core.provider_stats();
    assert_eq!(first, second);
    assert_eq!(first.len(), 3);
    assert_eq!(first[0].1.errors, 0);
    assert_eq!(first[1].1.wins, 1);
    assert_eq!(first[2].1.avg_latency_ms, 0);
}

#[test]
fn without_provider_keeps_value_and_error() {
    assert_eq!(without_provider(Ok((ProviderId("a"), 5u64))), Ok(5));
    assert_eq!(without_provider::<u64>(Err(HedgedError::Timeout(7))), Err(HedgedError::Timeout(7)));
}

#[test]
fn reject_stale_keeps_other_outcomes() {
    let timed: Settled<AccountResponse<u8>> = Settled::TimedOut { selected: 2 };
    assert!(matches!(reject_stale(timed, 10), Settled::TimedOut { selected: 2 }));
    let won = Settled::Won { index: 1, value: AccountResponse { slot: 11, value: 3u8 } };
    match reject_stale(won, 10) {
        Settled::Won { index, value } => assert_eq!((index, value.slot, value.value), (1, 11, 3)),
        _ => panic!("expected a win"),
    }
}
