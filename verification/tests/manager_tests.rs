use std::cell::Cell;
use std::sync::Arc;

use uptime_monitor::config::{Protocol, SystemConfig};
use uptime_monitor::monitor::probe::check_outcome;
use uptime_monitor::monitor::supervisor::{decide_step, CHECK_INTERVAL_SECONDS};
use uptime_monitor::monitor::{
    CheckReport, MonitorError, MonitorManager, ProbeFailure, ProbePlan, Supervisor,
    SupervisorState, SupervisorStep, SystemStatus, Timestamp, Transition,
};

fn target(name: &str) -> SystemConfig {
    SystemConfig::new(name.to_string(), "example.org".to_string(), Some(443), Protocol::Tcp)
}

fn at(secs: i64) -> Timestamp {
    Timestamp { secs, nanos: 0 }
}

fn ok(ms: u64) -> CheckReport {
    CheckReport { is_online: true, response_time_ms: Some(ms), error: None }
}

fn failed(text: &str) -> CheckReport {
    CheckReport { is_online: false, response_time_ms: None, error: Some(text.to_string()) }
}

fn sorted_ids(manager: &MonitorManager) -> Vec<u128> {
    let mut ids: Vec<u128> = manager.get_systems().iter().map(|s| s.id).collect();
    ids.sort();
    ids
}

fn runtime() -> tokio::runtime::Runtime {
    tokio::runtime::Builder::new_current_thread().build().unwrap()
}

/// Lets the tasks of `runtime` run until they have nothing more to do.
fn settle(runtime: &tokio::runtime::Runtime) {
    runtime.block_on(async {
        for _ in 0..4 {
            tokio::task::yield_now().await;
        }
    });
}

/// A task that never finishes by itself and holds `witness` while it lives.
fn idle_task(runtime: &tokio::runtime::Runtime, witness: &Arc<()>) -> tokio::task::JoinHandle<()> {
    let held = Arc::clone(witness);
    runtime.spawn(async move {
        let _held = held;
        std::future::pending::<()>().await;
    })
}

/// Adds a target under `id` with a supervisor that has nothing to do.
fn add_as(
    manager: &mut MonitorManager,
    rt: &tokio::runtime::Runtime,
    id: u128,
    secs: i64,
    config: SystemConfig,
) -> Result<u128, MonitorError> {
    manager.add_system_as(id, at(secs), config, |_id| rt.spawn(async {}))
}

#[test]
fn new_registry_is_empty() {
    let manager = MonitorManager::new();
    assert!(manager.get_systems().is_empty());
    assert_eq!(manager.get_system(1), None);
    let manager = MonitorManager::default();
    assert!(manager.get_systems().is_empty());
}

#[test]
fn added_target_is_listed_once_and_unchecked() {
    let rt = runtime();
    let mut manager = MonitorManager::new();
    let started = Cell::new(None);
    let id = manager
        .add_system(target("web"), |id| {
            started.set(Some(id));
            rt.spawn(async {})
        })
        .unwrap();
    assert_eq!(started.get(), Some(id));
    let list = manager.get_systems();
    assert_eq!(list.len(), 1);
    assert_eq!(list[0].id, id);
    assert_eq!(list[0].total_checks, 0);
    assert_eq!(list[0].successful_checks, 0);
    assert!(!list[0].is_online);
    assert_eq!(list[0].config, target("web"));
    assert_eq!(list[0].last_online, None);
    assert_eq!(list[0].last_offline, None);
    assert_eq!(list[0].response_time_ms, None);
    assert_eq!(list[0].error_message, None);
    assert_eq!(list[0].uptime_basis_points, 0);
    assert!(list[0].last_check.secs > 1_577_836_800);
    assert_eq!(uuid::Uuid::from_u128(id).get_version(), Some(uuid::Version::Random));
    assert_eq!(manager.get_system(id), Some(list[0].clone()));
}

#[test]
fn add_under_given_identifier() {
    let rt = runtime();
    let mut manager = MonitorManager::new();
    assert_eq!(add_as(&mut manager, &rt, 5, 100, target("a")), Ok(5));
    assert_eq!(manager.get_system(5), Some(SystemStatus::with_identity(5, target("a"), at(100))));
    assert_eq!(manager.get_system(6), None);
    assert_eq!(manager.get_systems().len(), 1);
}

#[test]
fn supervisor_is_started_for_the_new_identifier_after_its_record_exists() {
    let rt = runtime();
    let mut manager = MonitorManager::new();
    let started = Cell::new(None);
    let outcome = manager.add_system_as(9, at(1), target("a"), |id| {
        started.set(Some(id));
        rt.spawn(async {})
    });
    assert_eq!(outcome, Ok(9));
    assert_eq!(started.get(), Some(9));
}

#[test]
fn identifier_in_use_is_refused() {
    let rt = runtime();
    let mut manager = MonitorManager::new();
    assert_eq!(add_as(&mut manager, &rt, 5, 100, target("a")), Ok(5));
    let started = Cell::new(false);
    let outcome = manager.add_system_as(5, at(200), target("b"), |_id| {
        started.set(true);
        rt.spawn(async {})
    });
    assert_eq!(outcome, Err(MonitorError::IdentifierInUse));
    assert!(!started.get());
    assert_eq!(manager.get_systems().len(), 1);
    assert_eq!(manager.get_system(5), Some(SystemStatus::with_identity(5, target("a"), at(100))));
}

#[test]
fn many_targets_get_distinct_identifiers() {
    let rt = runtime();
    let mut manager = MonitorManager::new();
    let mut ids = Vec::new();
    for i in 0..50 {
        ids.push(manager.add_system(target(&format!("t{}", i)), |_id| rt.spawn(async {})).unwrap());
    }
    let list = manager.get_systems();
    assert_eq!(list.len(), 50);
    let mut listed: Vec<u128> = list.iter().map(|s| s.id).collect();
    listed.sort();
    listed.dedup();
    assert_eq!(listed.len(), 50);
    ids.sort();
    assert_eq!(listed, ids);
}

#[test]
fn drawn_identifier_is_free_beside_identifiers_that_are_no_random_uuids() {
    let rt = runtime();
    let mut manager = MonitorManager::new();
    for id in 0..20u128 {
        add_as(&mut manager, &rt, id, 10, target("given")).unwrap();
    }
    let started = Cell::new(None);
    let outcome = manager.add_system(target("drawn"), |id| {
        started.set(Some(id));
        rt.spawn(async {})
    });
    let id = outcome.unwrap();
    assert!(id >= 20);
    assert_eq!(started.get(), Some(id));
    assert_eq!(manager.get_systems().len(), 21);
    assert_eq!(manager.get_system(id).unwrap().config, target("drawn"));
    assert_eq!(manager.get_system(id).unwrap().total_checks, 0);
}

#[test]
fn identical_targets_are_distinct_entities() {
    let rt = runtime();
    let mut manager = MonitorManager::new();
    let a = manager.add_system(target("same"), |_id| rt.spawn(async {})).unwrap();
    let b = manager.add_system(target("same"), |_id| rt.spawn(async {})).unwrap();
    assert_ne!(a, b);
    assert_eq!(manager.get_systems().len(), 2);
}

#[test]
fn order_of_additions_does_not_matter() {
    let rt = runtime();
    let mut first = MonitorManager::new();
    add_as(&mut first, &rt, 1, 10, target("a")).unwrap();
    add_as(&mut first, &rt, 2, 20, target("b")).unwrap();
    add_as(&mut first, &rt, 3, 30, target("c")).unwrap();
    let mut second = MonitorManager::new();
    add_as(&mut second, &rt, 3, 30, target("c")).unwrap();
    add_as(&mut second, &rt, 1, 10, target("a")).unwrap();
    add_as(&mut second, &rt, 2, 20, target("b")).unwrap();
    assert_eq!(sorted_ids(&first), vec![1, 2, 3]);
    assert_eq!(sorted_ids(&second), vec![1, 2, 3]);
    for id in 1..=3u128 {
        assert_eq!(first.get_system(id), second.get_system(id));
    }
    assert_eq!(first.get_system(2), Some(SystemStatus::with_identity(2, target("b"), at(20))));
}

#[test]
fn remove_deletes_the_record() {
    let rt = runtime();
    let mut manager = MonitorManager::new();
    add_as(&mut manager, &rt, 1, 10, target("a")).unwrap();
    add_as(&mut manager, &rt, 2, 20, target("b")).unwrap();
    manager.remove_system(1);
    assert_eq!(manager.get_system(1), None);
    assert_eq!(sorted_ids(&manager), vec![2]);
    assert_eq!(manager.get_system(2), Some(SystemStatus::with_identity(2, target("b"), at(20))));
}

#[test]
fn remove_of_unknown_identifier_changes_nothing() {
    let rt = runtime();
    let witness = Arc::new(());
    let mut manager = MonitorManager::new();
    manager.remove_system(99);
    assert!(manager.get_systems().is_empty());
    manager.add_system_as(1, at(10), target("a"), |_id| idle_task(&rt, &witness)).unwrap();
    add_as(&mut manager, &rt, 2, 20, target("b")).unwrap();
    settle(&rt);
    manager.remove_system(99);
    settle(&rt);
    assert_eq!(Arc::strong_count(&witness), 2);
    assert_eq!(sorted_ids(&manager), vec![1, 2]);
    assert_eq!(manager.get_system(1), Some(SystemStatus::with_identity(1, target("a"), at(10))));
    assert_eq!(manager.get_system(2), Some(SystemStatus::with_identity(2, target("b"), at(20))));
}

#[test]
fn remove_twice_is_safe() {
    let rt = runtime();
    let mut manager = MonitorManager::new();
    add_as(&mut manager, &rt, 1, 10, target("a")).unwrap();
    manager.remove_system(1);
    manager.remove_system(1);
    assert!(manager.get_systems().is_empty());
}

#[test]
fn remove_cancels_the_supervisor() {
    let rt = runtime();
    let witness = Arc::new(());
    let other = Arc::new(());
    let mut manager = MonitorManager::new();
    manager.add_system_as(1, at(10), target("a"), |_id| idle_task(&rt, &witness)).unwrap();
    manager.add_system_as(2, at(10), target("b"), |_id| idle_task(&rt, &other)).unwrap();
    settle(&rt);
    assert_eq!(Arc::strong_count(&witness), 2);
    assert_eq!(Arc::strong_count(&other), 2);
    manager.remove_system(1);
    settle(&rt);
    assert_eq!(Arc::strong_count(&witness), 1);
    assert_eq!(Arc::strong_count(&other), 2);
    assert_eq!(manager.get_system(1), None);
    manager.remove_system(2);
    settle(&rt);
    assert_eq!(Arc::strong_count(&other), 1);
}

#[test]
fn removed_identifier_can_be_taken_again() {
    let rt = runtime();
    let mut manager = MonitorManager::new();
    add_as(&mut manager, &rt, 1, 10, target("a")).unwrap();
    manager.record_check_at(1, at(40), ok(15));
    manager.remove_system(1);
    assert_eq!(add_as(&mut manager, &rt, 1, 50, target("b")), Ok(1));
    assert_eq!(manager.get_system(1), Some(SystemStatus::with_identity(1, target("b"), at(50))));
}

#[test]
fn check_is_folded_into_the_record() {
    let rt = runtime();
    let mut manager = MonitorManager::new();
    add_as(&mut manager, &rt, 1, 10, target("a")).unwrap();
    add_as(&mut manager, &rt, 2, 10, target("b")).unwrap();
    assert_eq!(manager.record_check_at(1, at(40), ok(15)), Some(Transition::BecameOnline));
    let mut expected = SystemStatus::with_identity(1, target("a"), at(10));
    expected.update_status_at(at(40), true, Some(15), None);
    assert_eq!(manager.get_system(1), Some(expected));
    assert_eq!(manager.get_system(2), Some(SystemStatus::with_identity(2, target("b"), at(10))));

    assert_eq!(manager.record_check_at(1, at(70), ok(20)), None);
    assert_eq!(
        manager.record_check_at(1, at(100), failed("refused")),
        Some(Transition::BecameOffline)
    );
    let s = manager.get_system(1).unwrap();
    assert_eq!(s.total_checks, 3);
    assert_eq!(s.successful_checks, 2);
    assert_eq!(s.uptime_basis_points, 6_666);
    assert_eq!(s.last_online, Some(at(70)));
    assert_eq!(s.last_offline, Some(at(100)));
    assert_eq!(s.last_check, at(100));
    assert_eq!(s.error_message, Some("refused".to_string()));
    assert_eq!(s.response_time_ms, None);
    assert!(!s.is_online);
    assert_eq!(sorted_ids(&manager), vec![1, 2]);
}

#[test]
fn events_of_a_run_reported_to_the_registry() {
    let rt = runtime();
    let mut manager = MonitorManager::new();
    add_as(&mut manager, &rt, 1, 0, target("a")).unwrap();
    let mut events = Vec::new();
    for (i, up) in [false, false, true, true, false].iter().enumerate() {
        let report = if *up { ok(1) } else { failed("down") };
        events.push(manager.record_check_at(1, at(30 * (i as i64 + 1)), report));
        let s = manager.get_system(1).unwrap();
        assert!(s.successful_checks <= s.total_checks);
    }
    assert_eq!(
        events,
        vec![None, None, Some(Transition::BecameOnline), None, Some(Transition::BecameOffline)]
    );
}

#[test]
fn check_with_clock_stamps_the_record() {
    let rt = runtime();
    let mut manager = MonitorManager::new();
    let id = manager.add_system(target("a"), |_id| rt.spawn(async {})).unwrap();
    assert_eq!(manager.record_check(id, ok(3)), Some(Transition::BecameOnline));
    let s = manager.get_system(id).unwrap();
    assert_eq!(s.total_checks, 1);
    assert_eq!(s.successful_checks, 1);
    assert_eq!(s.response_time_ms, Some(3));
    assert_eq!(s.last_online, Some(s.last_check));
    assert!(s.last_check.secs > 1_577_836_800);
    assert_eq!(manager.record_check(id ^ 1, ok(3)), None);
    assert_eq!(manager.get_systems().len(), 1);
}

#[test]
fn no_update_after_removal() {
    let rt = runtime();
    let mut manager = MonitorManager::new();
    add_as(&mut manager, &rt, 1, 10, target("a")).unwrap();
    add_as(&mut manager, &rt, 2, 10, target("b")).unwrap();
    manager.record_check_at(1, at(40), ok(15));
    manager.remove_system(1);
    assert_eq!(manager.record_check_at(1, at(70), ok(15)), None);
    assert_eq!(manager.record_check_at(1, at(100), failed("x")), None);
    assert_eq!(manager.record_check(1, ok(1)), None);
    assert_eq!(manager.get_system(1), None);
    assert_eq!(sorted_ids(&manager), vec![2]);
    assert_eq!(manager.get_system(2), Some(SystemStatus::with_identity(2, target("b"), at(10))));
    assert_eq!(Supervisor::new(1).tick(&manager), SupervisorStep::Stop);
}

#[test]
fn supervisor_stops_without_record() {
    assert_eq!(decide_step(None), SupervisorStep::Stop);
    let manager = MonitorManager::new();
    let mut supervisor = Supervisor::new(3);
    assert_eq!(supervisor.id, 3);
    assert_eq!(supervisor.state, SupervisorState::Running);
    assert_eq!(supervisor.tick(&manager), SupervisorStep::Stop);
    assert_eq!(supervisor.state, SupervisorState::Stopped);
    assert_eq!(supervisor.id, 3);
}

#[test]
fn supervisor_skips_disabled_target() {
    let rt = runtime();
    let mut config = target("a");
    config.enabled = false;
    assert_eq!(
        decide_step(Some(SystemStatus::with_identity(1, config.clone(), at(1)))),
        SupervisorStep::Skip
    );
    let mut manager = MonitorManager::new();
    add_as(&mut manager, &rt, 1, 10, config.clone()).unwrap();
    let mut supervisor = Supervisor::new(1);
    assert_eq!(supervisor.tick(&manager), SupervisorStep::Skip);
    assert_eq!(supervisor.state, SupervisorState::Running);
    assert_eq!(manager.get_system(1), Some(SystemStatus::with_identity(1, config, at(10))));
}

#[test]
fn supervisor_probes_enabled_target() {
    let rt = runtime();
    let mut manager = MonitorManager::new();
    add_as(&mut manager, &rt, 1, 10, target("a")).unwrap();
    let mut supervisor = Supervisor::new(1);
    assert_eq!(
        supervisor.tick(&manager),
        SupervisorStep::Probe(ProbePlan::Tcp {
            address: "example.org:443".to_string(),
            timeout_seconds: 5,
        })
    );
    assert_eq!(supervisor.state, SupervisorState::Running);
    assert_eq!(
        decide_step(Some(SystemStatus::with_identity(
            4,
            SystemConfig::new("p".to_string(), "10.0.0.1".to_string(), None, Protocol::Ping),
            at(1)
        ))),
        SupervisorStep::Probe(ProbePlan::Ping {
            arguments: vec![
                "-c".to_string(),
                "1".to_string(),
                "-W".to_string(),
                "5".to_string(),
                "10.0.0.1".to_string()
            ],
        })
    );
    assert_eq!(CHECK_INTERVAL_SECONDS, 30);
}

#[test]
fn stopped_supervisor_stays_stopped() {
    let rt = runtime();
    let mut manager = MonitorManager::new();
    add_as(&mut manager, &rt, 1, 10, target("a")).unwrap();
    let mut supervisor = Supervisor::new(1);
    assert!(matches!(supervisor.tick(&manager), SupervisorStep::Probe(_)));
    manager.remove_system(1);
    assert_eq!(supervisor.tick(&manager), SupervisorStep::Stop);
    assert_eq!(supervisor.state, SupervisorState::Stopped);
    // The identifier comes back, the supervisor does not.
    add_as(&mut manager, &rt, 1, 50, target("a")).unwrap();
    assert_eq!(supervisor.tick(&manager), SupervisorStep::Stop);
    assert_eq!(supervisor.state, SupervisorState::Stopped);
    assert!(matches!(Supervisor::new(1).tick(&manager), SupervisorStep::Probe(_)));
}

#[test]
fn asking_for_the_step_touches_no_record() {
    let rt = runtime();
    let mut manager = MonitorManager::new();
    add_as(&mut manager, &rt, 1, 10, target("a")).unwrap();
    let mut supervisor = Supervisor::new(1);
    supervisor.tick(&manager);
    supervisor.tick(&manager);
    assert_eq!(manager.get_system(1), Some(SystemStatus::with_identity(1, target("a"), at(10))));
}

#[test]
fn one_tick_from_step_to_record() {
    let rt = runtime();
    let mut manager = MonitorManager::new();
    add_as(&mut manager, &rt, 1, 10, target("a")).unwrap();
    let step = Supervisor::new(1).tick(&manager);
    assert!(matches!(step, SupervisorStep::Probe(_)));
    let report = check_outcome(Err(ProbeFailure::TimedOut), 5_000);
    assert_eq!(manager.record_check_at(1, at(45), report), None);
    let s = manager.get_system(1).unwrap();
    assert_eq!(s.total_checks, 1);
    assert_eq!(s.successful_checks, 0);
    assert_eq!(s.error_message, Some("deadline has elapsed".to_string()));
    assert_eq!(s.last_check, at(45));
}

#[test]
fn snapshots_are_copies() {
    let rt = runtime();
    let mut manager = MonitorManager::new();
    add_as(&mut manager, &rt, 1, 10, target("a")).unwrap();
    let mut snapshot = manager.get_system(1).unwrap();
    snapshot.update_status_at(at(20), true, Some(1), None);
    let mut listed = manager.get_systems();
    listed[0].total_checks = 9;
    assert_eq!(manager.get_system(1), Some(SystemStatus::with_identity(1, target("a"), at(10))));
}
