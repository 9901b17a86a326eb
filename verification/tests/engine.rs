use autoclicker::clicker::{AutoClicker, ClickMode};
use autoclicker::engine::{
    cycle_delay_ms, draw_cps, CyclePlan, EngineAction, CLICK_HOLD_MS, IDLE_INTERVAL_MS, NEVER_MS,
};
use autoclicker::observer::{record_pointer_mask, MouseButton};

fn running(mode: ClickMode, mask: u32) -> AutoClicker {
    let mut clicker = AutoClicker::new();
    clicker.set_click_mode(mode);
    clicker.toggle_running();
    record_pointer_mask(&mut clicker, mask);
    clicker
}

#[test]
fn delay_at_25_cps() {
    assert_eq!(cycle_delay_ms(25), 38);
}

#[test]
fn delay_at_5_cps() {
    assert_eq!(cycle_delay_ms(5), 198);
}

#[test]
fn delay_at_1000_cps_saturates() {
    assert_eq!(cycle_delay_ms(1000), 0);
}

#[test]
fn delay_edges() {
    assert_eq!(cycle_delay_ms(1), 998);
    assert_eq!(cycle_delay_ms(3), 331);
    assert_eq!(cycle_delay_ms(7), 140);
    assert_eq!(cycle_delay_ms(333), 1);
    assert_eq!(cycle_delay_ms(334), 0);
    assert_eq!(cycle_delay_ms(500), 0);
    assert_eq!(cycle_delay_ms(501), 0);
    assert_eq!(cycle_delay_ms(1001), 0);
    assert_eq!(cycle_delay_ms(u32::MAX), 0);
}

#[test]
fn delay_at_zero_cps_never_ends() {
    assert_eq!(cycle_delay_ms(0), NEVER_MS);
    assert_eq!(NEVER_MS, u64::MAX - 2);
}

#[test]
fn delay_never_grows_with_rate() {
    let mut last = cycle_delay_ms(1);
    for cps in 2..2000u32 {
        let delay = cycle_delay_ms(cps);
        assert!(delay <= last);
        last = delay;
    }
}

#[test]
fn draws_lie_in_band() {
    for (min, max) in [(5u32, 25u32), (1, 2), (0, 0), (7, 7), (0, u32::MAX), (u32::MAX - 1, u32::MAX)] {
        for _ in 0..2000 {
            let cps = draw_cps(min, max);
            assert!(min <= cps && cps <= max);
        }
    }
}

#[test]
fn draw_from_inverted_band_is_min() {
    for _ in 0..100 {
        assert_eq!(draw_cps(25, 5), 25);
        assert_eq!(draw_cps(1, 0), 1);
    }
}

#[test]
fn draws_are_roughly_uniform() {
    let min = 5u32;
    let max = 25u32;
    let buckets = (max - min + 1) as usize;
    let draws = 42_000usize;
    let mut counts = vec![0usize; buckets];
    for _ in 0..draws {
        counts[(draw_cps(min, max) - min) as usize] += 1;
    }
    assert!(counts.iter().all(|&c| c > 0));
    let expected = draws as f64 / buckets as f64;
    let chi_square: f64 = counts
        .iter()
        .map(|&c| {
            let d = c as f64 - expected;
            d * d / expected
        })
        .sum();
    assert!(chi_square < 90.0);
}

#[test]
fn left_mode_clicks_left_only() {
    let clicker = running(ClickMode::Left, 0x500);
    let plan = clicker.plan_cycle("Editor", 25);
    assert_eq!(plan, CyclePlan { click_left: true, click_right: false, sleep_ms: 38 });
}

#[test]
fn right_mode_clicks_right_only() {
    let clicker = running(ClickMode::Right, 0x500);
    let plan = clicker.plan_cycle("Editor", 5);
    assert_eq!(plan, CyclePlan { click_left: false, click_right: true, sleep_ms: 198 });
}

#[test]
fn both_mode_clicks_both() {
    let clicker = running(ClickMode::Both, 0x500);
    let plan = clicker.plan_cycle("Editor", 10);
    assert_eq!(plan, CyclePlan { click_left: true, click_right: true, sleep_ms: 98 });
}

#[test]
fn unheld_buttons_are_not_clicked() {
    let clicker = running(ClickMode::Both, 0x400);
    let plan = clicker.plan_cycle("Editor", 10);
    assert_eq!(plan, CyclePlan { click_left: false, click_right: true, sleep_ms: 98 });
    let clicker = running(ClickMode::Left, 0x400);
    let plan = clicker.plan_cycle("Editor", 10);
    assert_eq!(plan, CyclePlan { click_left: false, click_right: false, sleep_ms: 98 });
}

#[test]
fn own_window_is_never_clicked() {
    for mode in [ClickMode::Left, ClickMode::Right, ClickMode::Both] {
        for mask in [0u32, 0x100, 0x400, 0x500] {
            let clicker = running(mode, mask);
            let plan = clicker.plan_cycle("Auto Clicker", 25);
            assert_eq!(plan, CyclePlan { click_left: false, click_right: false, sleep_ms: 38 });
            assert_eq!(plan.actions(), vec![EngineAction::Sleep(38)]);
        }
    }
}

#[test]
fn stopped_engine_idles() {
    let mut clicker = AutoClicker::new();
    clicker.set_click_mode(ClickMode::Both);
    record_pointer_mask(&mut clicker, 0x500);
    let plan = clicker.plan_cycle("Editor", 25);
    assert_eq!(IDLE_INTERVAL_MS, 10);
    assert_eq!(plan, CyclePlan { click_left: false, click_right: false, sleep_ms: 10 });
    assert_eq!(clicker.next_cycle("Editor"), plan);
}

#[test]
fn actions_follow_plan_order() {
    assert_eq!(CLICK_HOLD_MS, 1);
    let both = CyclePlan { click_left: true, click_right: true, sleep_ms: 38 };
    assert_eq!(
        both.actions(),
        vec![
            EngineAction::ButtonDown(MouseButton::Left),
            EngineAction::Sleep(1),
            EngineAction::ButtonUp(MouseButton::Left),
            EngineAction::ButtonDown(MouseButton::Right),
            EngineAction::Sleep(1),
            EngineAction::ButtonUp(MouseButton::Right),
            EngineAction::Sleep(38),
        ]
    );
    let right = CyclePlan { click_left: false, click_right: true, sleep_ms: 0 };
    assert_eq!(
        right.actions(),
        vec![
            EngineAction::ButtonDown(MouseButton::Right),
            EngineAction::Sleep(1),
            EngineAction::ButtonUp(MouseButton::Right),
            EngineAction::Sleep(0),
        ]
    );
}

#[test]
fn next_cycle_sleeps_within_band() {
    let clicker = running(ClickMode::Left, 0x100);
    let mut seen_different = false;
    let first = clicker.next_cycle("Editor").sleep_ms;
    for _ in 0..2000 {
        let plan = clicker.next_cycle("Editor");
        assert!(plan.click_left);
        assert!(!plan.click_right);
        assert!(38 <= plan.sleep_ms && plan.sleep_ms <= 198);
        if plan.sleep_ms != first {
            seen_different = true;
        }
    }
    assert!(seen_different);
}

#[test]
fn next_cycle_follows_live_bounds() {
    let mut clicker = running(ClickMode::Left, 0x100);
    clicker.set_min_cps(20);
    clicker.set_max_cps(20);
    for _ in 0..50 {
        assert_eq!(clicker.next_cycle("Editor").sleep_ms, 48);
    }
    clicker.set_min_cps(50);
    clicker.set_max_cps(10);
    for _ in 0..50 {
        assert_eq!(clicker.next_cycle("Editor").sleep_ms, 18);
    }
}
