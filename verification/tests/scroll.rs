use teleprompter::scroll::{
    offset_at, ScrollConfig, ScrollController, DEFAULT_PERIOD_MS, DEFAULT_PIXELS_PER_WORD,
};

#[test]
fn default_configuration() {
    let config = ScrollConfig::default();
    assert_eq!(config.period_ms, 50);
    assert_eq!(config.pixels_per_word, 20);
    assert_eq!(DEFAULT_PERIOD_MS, 50);
    assert_eq!(DEFAULT_PIXELS_PER_WORD, 20);
}

#[test]
fn offset_formula() {
    assert_eq!(offset_at(0, 120, 50, 20), 0);
    assert_eq!(offset_at(1, 120, 50, 20), 2);
    assert_eq!(offset_at(10, 120, 50, 20), 20);
    assert_eq!(offset_at(1, 90, 50, 20), 1);
    assert_eq!(offset_at(2, 90, 50, 20), 3);
    assert_eq!(offset_at(3, 90, 50, 20), 4);
    assert_eq!(offset_at(1200, 150, 50, 20), 3000);
    assert_eq!(offset_at(7, 0, 50, 20), 0);
    assert_eq!(offset_at(7, 120, 50, 0), 0);
    assert_eq!(offset_at(3, 200, 100, 7), 7);
}

#[test]
fn offset_holds_at_largest_value() {
    assert_eq!(offset_at(1, u32::MAX, u32::MAX, u32::MAX), i32::MAX);
    assert_eq!(offset_at(u64::MAX, 1, 1, 1), i32::MAX);
    assert_eq!(offset_at(u64::MAX, 0, 1, 1), 0);
    assert_eq!(offset_at(128_849_018_820_000, 1, 1, 1), i32::MAX);
    assert_eq!(offset_at(128_849_018_819_999, 1, 1, 1), i32::MAX - 1);
    assert_eq!(offset_at(1_073_741_824, 120, 50, 20), i32::MAX);
    assert_eq!(offset_at(1_073_741_823, 120, 50, 20), 2_147_483_646);
}

#[test]
fn offset_after_exact_tick_counts() {
    for wpm in [0u32, 60, 90, 120, 133, 200] {
        let mut controller = ScrollController::new(ScrollConfig::default());
        controller.activate(wpm);
        for n in 1u64..=200 {
            let expected = (n * wpm as u64 * 50 * 20 / 60000) as i32;
            assert_eq!(controller.tick(), Some(expected));
            assert_eq!(controller.offset(), expected);
            assert_eq!(controller.ticks(), n);
        }
    }
}

#[test]
fn inactive_controller_does_not_move() {
    let mut controller = ScrollController::new(ScrollConfig::default());
    assert!(!controller.is_active());
    assert_eq!(controller.tick(), None);
    assert_eq!(controller.offset(), 0);
    assert_eq!(controller.ticks(), 0);
}

#[test]
fn deactivation_freezes_offset_and_forgets_count() {
    let mut controller = ScrollController::new(ScrollConfig::default());
    controller.activate(120);
    for _ in 0..5 {
        controller.tick();
    }
    assert_eq!(controller.offset(), 10);
    controller.deactivate();
    assert!(!controller.is_active());
    assert_eq!(controller.offset(), 10);
    assert_eq!(controller.ticks(), 0);
    assert_eq!(controller.tick(), None);
    assert_eq!(controller.offset(), 10);
}

#[test]
fn reactivation_starts_from_zero() {
    let mut fresh = ScrollController::new(ScrollConfig::default());
    fresh.activate(120);
    let first = fresh.tick();
    assert_eq!(first, Some(2));

    let mut reused = ScrollController::new(ScrollConfig::default());
    reused.activate(120);
    for _ in 0..40 {
        reused.tick();
    }
    assert_eq!(reused.offset(), 80);
    reused.deactivate();
    reused.activate(120);
    assert_eq!(reused.rate(), 120);
    assert_eq!(reused.tick(), first);
}

#[test]
fn rate_is_taken_at_activation() {
    let config = ScrollConfig { period_ms: 100, pixels_per_word: 30 };
    let mut controller = ScrollController::new(config);
    assert_eq!(controller.config(), config);
    controller.activate(200);
    assert_eq!(controller.tick(), Some(10));
    assert_eq!(controller.tick(), Some(20));
    controller.activate(100);
    assert_eq!(controller.tick(), Some(5));
}
