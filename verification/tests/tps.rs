use tps_monitor::window::WINDOW_CAP;
use tps_monitor::TpsModule;

fn module_with_ticks(ticks: &[u64]) -> TpsModule {
    let mut m = TpsModule::new();
    assert_eq!(m.init(true), 0);
    let mut i: usize = 0;
    while i < ticks.len() {
        m.on_tick(ticks[i]);
        i += 1;
    }
    m
}

#[test]
fn tps_before_init() {
    let m = TpsModule::new();
    assert_eq!(m.get_tps(), -1);
    assert!(m.snapshot().is_none());
}

#[test]
fn init_failure_keeps_window_absent() {
    let mut m = TpsModule::new();
    assert_eq!(m.init(false), 1);
    assert_eq!(m.get_tps(), -1);
    assert!(m.snapshot().is_none());
    assert!(!m.is_active());
}

#[test]
fn init_success_before_ticks() {
    let mut m = TpsModule::new();
    assert_eq!(m.init(true), 0);
    assert!(m.is_active());
    assert_eq!(m.get_tps(), -1);
    assert_eq!(m.snapshot(), Some(vec![]));
}

#[test]
fn second_init_rejected() {
    let mut m = TpsModule::new();
    assert_eq!(m.init(true), 0);
    assert_eq!(m.init(true), 1);
    assert!(m.is_active());
}

#[test]
fn single_tick_unavailable() {
    let m = module_with_ticks(&[1000]);
    assert_eq!(m.get_tps(), -1);
}

#[test]
fn two_ticks_give_ten() {
    let m = module_with_ticks(&[1000, 1100]);
    assert_eq!(m.get_tps(), 10);
}

#[test]
fn three_ticks_truncate() {
    let m = module_with_ticks(&[1000, 1100, 1300]);
    assert_eq!(m.get_tps(), 6);
}

#[test]
fn identical_ticks_unavailable() {
    let m = module_with_ticks(&[1000, 1000]);
    assert_eq!(m.get_tps(), -1);
}

#[test]
fn sub_millisecond_average_unavailable() {
    let m = module_with_ticks(&[1000, 1000, 1001]);
    assert_eq!(m.get_tps(), -1);
}

#[test]
fn backwards_clock_unavailable() {
    let m = module_with_ticks(&[2000, 1000]);
    assert_eq!(m.get_tps(), -1);
}

#[test]
fn slow_ticks_round_to_zero() {
    let m = module_with_ticks(&[0, 5000]);
    assert_eq!(m.get_tps(), 0);
}

#[test]
fn window_keeps_short_run() {
    let ticks: Vec<u64> = vec![10, 20, 30, 40, 50];
    let m = module_with_ticks(&ticks);
    assert_eq!(m.snapshot(), Some(ticks));
}

#[test]
fn window_evicts_oldest() {
    let over: usize = 7;
    let mut ticks: Vec<u64> = Vec::new();
    let mut i: usize = 0;
    while i < WINDOW_CAP + over {
        ticks.push(i as u64);
        i += 1;
    }
    let m = module_with_ticks(&ticks);
    let kept = m.snapshot().unwrap();
    assert_eq!(kept.len(), WINDOW_CAP);
    assert_eq!(kept[0], over as u64);
    assert_eq!(kept[WINDOW_CAP - 1], (WINDOW_CAP + over - 1) as u64);
    assert_eq!(kept.as_slice(), &ticks[over..]);
}

#[test]
fn window_length_pinned_at_capacity() {
    let mut m = TpsModule::new();
    assert_eq!(m.init(true), 0);
    let mut i: usize = 0;
    while i < 3 * WINDOW_CAP {
        m.on_tick(i as u64);
        if i + 1 >= WINDOW_CAP {
            assert_eq!(m.snapshot().unwrap().len(), WINDOW_CAP);
        }
        i += 1;
    }
}
