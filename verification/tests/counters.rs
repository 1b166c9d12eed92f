use ravenscar_app::activation_log::ActivationLog;
use ravenscar_app::activation_manager::ActivationManager;
use ravenscar_app::auxiliary::Auxiliary;
use ravenscar_app::time::TimeInstant;

#[test]
fn due_activation_fires_once_every_five_requests() {
    let mut aux = Auxiliary::new();
    let fired: Vec<bool> = (0..10).map(|_| aux.due_activation(2)).collect();
    assert_eq!(
        fired,
        vec![false, true, false, false, false, false, true, false, false, false]
    );
}

#[test]
fn due_activation_reduces_param_modulo_five() {
    let mut aux = Auxiliary::new();
    // The counter never reaches 7, but 7 agrees with 2 modulo 5.
    assert!(!aux.due_activation(7));
    assert!(aux.due_activation(7));
    let mut aux = Auxiliary::new();
    let fired: Vec<bool> = (0..5).map(|_| aux.due_activation(0)).collect();
    assert_eq!(fired, vec![false, false, false, false, true]);
}

#[test]
fn check_due_fires_on_multiples_of_three() {
    let mut aux = Auxiliary::new();
    let fired: Vec<bool> = (0..6).map(|_| aux.check_due()).collect();
    assert_eq!(fired, vec![false, false, true, false, false, true]);
}

#[test]
fn check_due_counter_wraps_at_one_thousand() {
    let mut aux = Auxiliary::new();
    for _ in 0..998 {
        aux.check_due();
    }
    assert!(aux.check_due()); // run 999
    assert!(aux.check_due()); // run 1000 wraps to 0
    assert!(!aux.check_due()); // 1
    assert!(!aux.check_due()); // 2
    assert!(aux.check_due()); // 3
}

#[test]
fn counters_are_independent() {
    let mut aux = Auxiliary::new();
    aux.check_due();
    aux.check_due();
    // Two runs do not move the request counter.
    assert!(!aux.due_activation(2));
    assert!(aux.due_activation(2));
    // Two requests do not move the run counter.
    assert!(aux.check_due());
}

#[test]
fn activation_log_read_returns_last_write() {
    let start = TimeInstant::from_ticks(42);
    let mut log = ActivationLog::new(start);
    assert_eq!(log.read(), (0, start));
    log.write(TimeInstant::from_ticks(1_000));
    log.write(TimeInstant::from_ticks(2_000));
    assert_eq!(log.read(), (2, TimeInstant::from_ticks(2_000)));
}

#[test]
fn activation_log_counter_wraps_at_one_hundred() {
    let mut log = ActivationLog::new(TimeInstant::from_ticks(0));
    for k in 1..=99u64 {
        log.write(TimeInstant::from_ticks(k));
    }
    assert_eq!(log.read().0, 99);
    log.write(TimeInstant::from_ticks(100));
    assert_eq!(log.read(), (0, TimeInstant::from_ticks(100)));
    log.write(TimeInstant::from_ticks(101));
    assert_eq!(log.read().0, 1);
}

#[test]
fn activation_manager_offsets_by_one_hundred_millis() {
    let manager = ActivationManager::new(TimeInstant::from_ticks(5_000));
    assert_eq!(manager.get_activation_time(), TimeInstant::from_ticks(105_000));
}

#[test]
fn activation_manager_wraps_the_tick_counter() {
    let manager = ActivationManager::new(TimeInstant::from_ticks(u64::MAX - 49_999));
    assert_eq!(manager.get_activation_time(), TimeInstant::from_ticks(50_000));
}
