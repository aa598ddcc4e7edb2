use music_visualizer::constants::TRANSITION_MICROS;
use music_visualizer::scheduler::{next_enabled, AutoSwitch, ModeScheduler, ModeState};

const MANUAL: AutoSwitch = AutoSwitch { enabled: false, interval_micros: 30_000_000 };

#[test]
fn scheduler_starts_steady_on_the_first_effect() {
    let scheduler = ModeScheduler::new();
    assert_eq!(scheduler.state, ModeState::Steady { index: 0 });
    assert_eq!(scheduler.auto_timer, 0);
    assert_eq!(scheduler.active_index(), 0);
    assert!(!scheduler.is_transitioning());
}

#[test]
fn next_effect_follows_in_cyclic_order() {
    let all = vec![true, true, true];
    assert_eq!(next_enabled(&all, 0), Some(1));
    assert_eq!(next_enabled(&all, 1), Some(2));
    assert_eq!(next_enabled(&all, 2), Some(0));
}

#[test]
fn next_effect_skips_disabled_ones() {
    let flags = vec![true, false, false, true, false];
    assert_eq!(next_enabled(&flags, 0), Some(3));
    assert_eq!(next_enabled(&flags, 3), Some(0));
    assert_eq!(next_enabled(&flags, 1), Some(3));
    assert_eq!(next_enabled(&flags, 4), Some(0));
}

#[test]
fn single_enabled_effect_is_reached_from_every_start() {
    for count in 1usize..8 {
        for only in 0..count {
            let mut flags = vec![false; count];
            flags[only] = true;
            for start in 0..count {
                assert_eq!(next_enabled(&flags, start), Some(only));
            }
        }
    }
}

#[test]
fn all_disabled_leaves_the_index_unchanged() {
    let flags = vec![false, false, false];
    for start in 0..3 {
        assert_eq!(next_enabled(&flags, start), None);
        let mut scheduler =
            ModeScheduler { state: ModeState::Steady { index: start }, auto_timer: 5 };
        let before = scheduler;
        assert!(!scheduler.request_next(&flags));
        assert_eq!(scheduler, before);
        assert_eq!(scheduler.active_index(), start);
    }
}

#[test]
fn no_effects_means_no_next_effect() {
    assert_eq!(next_enabled(&Vec::new(), 0), None);
    assert_eq!(next_enabled(&Vec::new(), 17), None);
}

#[test]
fn start_beyond_the_gallery_wraps_around() {
    let flags = vec![true, true, true];
    assert_eq!(next_enabled(&flags, 3), Some(1));
    assert_eq!(next_enabled(&flags, 5), Some(0));
    assert_eq!(next_enabled(&flags, usize::MAX), Some((usize::MAX % 3 + 1) % 3));
}

#[test]
fn request_starts_a_handoff_at_zero() {
    let flags = vec![true, true, true];
    let mut scheduler = ModeScheduler::new();
    assert!(scheduler.request_next(&flags));
    assert_eq!(scheduler.state, ModeState::Transitioning { from: 0, to: 1, elapsed: 0 });
    assert_eq!(scheduler.active_index(), 1);
    assert!(scheduler.is_transitioning());
    scheduler.tick(100_000, MANUAL, &flags);
    assert!(scheduler.request_next(&flags));
    assert_eq!(scheduler.state, ModeState::Transitioning { from: 1, to: 2, elapsed: 0 });
}

#[test]
fn request_with_one_enabled_effect_hands_off_to_itself() {
    let flags = vec![false, true];
    let mut scheduler = ModeScheduler { state: ModeState::Steady { index: 1 }, auto_timer: 0 };
    assert!(scheduler.request_next(&flags));
    assert_eq!(scheduler.state, ModeState::Transitioning { from: 1, to: 1, elapsed: 0 });
}

#[test]
fn handoff_ends_after_one_large_step() {
    let flags = vec![true, true];
    let mut scheduler = ModeScheduler::new();
    scheduler.request_next(&flags);
    scheduler.tick(10_000_000, MANUAL, &flags);
    assert_eq!(scheduler.state, ModeState::Steady { index: 1 });
}

#[test]
fn handoff_ends_exactly_at_its_length() {
    let flags = vec![true, true];
    let mut scheduler = ModeScheduler::new();
    scheduler.request_next(&flags);
    scheduler.tick(TRANSITION_MICROS - 1, MANUAL, &flags);
    assert_eq!(
        scheduler.state,
        ModeState::Transitioning { from: 0, to: 1, elapsed: TRANSITION_MICROS - 1 }
    );
    scheduler.tick(1, MANUAL, &flags);
    assert_eq!(scheduler.state, ModeState::Steady { index: 1 });
    assert_eq!(TRANSITION_MICROS, 500_000);
}

#[test]
fn handoff_ends_once_after_many_tiny_steps() {
    let flags = vec![true, true, true];
    let mut scheduler = ModeScheduler::new();
    scheduler.request_next(&flags);
    let mut endings = 0;
    let mut total: u64 = 0;
    for _ in 0..2000 {
        let before = scheduler.is_transitioning();
        scheduler.tick(333, MANUAL, &flags);
        total += 333;
        if before && !scheduler.is_transitioning() {
            endings += 1;
            assert!(total >= TRANSITION_MICROS);
            assert!(total - 333 < TRANSITION_MICROS);
        }
        if total < TRANSITION_MICROS {
            assert_eq!(
                scheduler.state,
                ModeState::Transitioning { from: 0, to: 1, elapsed: total }
            );
        } else {
            assert_eq!(scheduler.state, ModeState::Steady { index: 1 });
        }
    }
    assert_eq!(endings, 1);
}

#[test]
fn steady_state_ignores_time_without_auto_switch() {
    let flags = vec![true, true];
    let mut scheduler = ModeScheduler { state: ModeState::Steady { index: 1 }, auto_timer: 0 };
    for dt in [0u64, 1, 500_000, u64::MAX] {
        scheduler.tick(dt, MANUAL, &flags);
        assert_eq!(scheduler.state, ModeState::Steady { index: 1 });
        assert_eq!(scheduler.auto_timer, 0);
    }
}

#[test]
fn zero_steps_do_not_advance_a_handoff() {
    let flags = vec![true, true];
    let mut scheduler = ModeScheduler::new();
    scheduler.request_next(&flags);
    for _ in 0..10 {
        scheduler.tick(0, MANUAL, &flags);
    }
    assert_eq!(scheduler.state, ModeState::Transitioning { from: 0, to: 1, elapsed: 0 });
}

#[test]
fn auto_switch_fires_when_the_interval_has_passed() {
    let flags = vec![true, false, true];
    let auto = AutoSwitch { enabled: true, interval_micros: 5_000_000 };
    let mut scheduler = ModeScheduler::new();
    scheduler.tick(4_999_999, auto, &flags);
    assert_eq!(scheduler.state, ModeState::Steady { index: 0 });
    assert_eq!(scheduler.auto_timer, 4_999_999);
    scheduler.tick(1, auto, &flags);
    assert_eq!(scheduler.state, ModeState::Transitioning { from: 0, to: 2, elapsed: 0 });
    assert_eq!(scheduler.auto_timer, 0);
    scheduler.tick(500_000, auto, &flags);
    assert_eq!(scheduler.state, ModeState::Steady { index: 2 });
    assert_eq!(scheduler.auto_timer, 500_000);
}

#[test]
fn auto_switch_waits_for_a_running_handoff() {
    let flags = vec![true, true, true];
    let auto = AutoSwitch { enabled: true, interval_micros: 5_000_000 };
    let mut scheduler = ModeScheduler {
        state: ModeState::Transitioning { from: 0, to: 1, elapsed: 0 },
        auto_timer: 4_900_000,
    };
    scheduler.tick(200_000, auto, &flags);
    assert_eq!(scheduler.state, ModeState::Transitioning { from: 0, to: 1, elapsed: 200_000 });
    assert_eq!(scheduler.auto_timer, 5_100_000);
    scheduler.tick(300_000, auto, &flags);
    assert_eq!(scheduler.state, ModeState::Steady { index: 1 });
    scheduler.tick(1, auto, &flags);
    assert_eq!(scheduler.state, ModeState::Transitioning { from: 1, to: 2, elapsed: 0 });
    assert_eq!(scheduler.auto_timer, 0);
}

#[test]
fn auto_switch_with_all_disabled_only_resets_the_timer() {
    let flags = vec![false, false];
    let auto = AutoSwitch { enabled: true, interval_micros: 5_000_000 };
    let mut scheduler = ModeScheduler { state: ModeState::Steady { index: 1 }, auto_timer: 0 };
    scheduler.tick(6_000_000, auto, &flags);
    assert_eq!(scheduler.state, ModeState::Steady { index: 1 });
    assert_eq!(scheduler.auto_timer, 0);
}

#[test]
fn timer_rests_at_zero_while_auto_switch_is_off() {
    let flags = vec![true, true];
    let mut scheduler =
        ModeScheduler { state: ModeState::Steady { index: 0 }, auto_timer: 1_000_000 };
    scheduler.tick(16_000, MANUAL, &flags);
    assert_eq!(scheduler.auto_timer, 0);
}

#[test]
fn timer_saturates_instead_of_overflowing() {
    let flags = vec![true, true];
    let auto = AutoSwitch { enabled: true, interval_micros: u64::MAX };
    let mut scheduler = ModeScheduler {
        state: ModeState::Transitioning { from: 0, to: 1, elapsed: 0 },
        auto_timer: u64::MAX - 5,
    };
    scheduler.tick(100, auto, &flags);
    assert_eq!(scheduler.auto_timer, u64::MAX);
    assert_eq!(scheduler.state, ModeState::Transitioning { from: 0, to: 1, elapsed: 100 });
}

#[test]
fn progress_runs_from_zero_to_one_thousand() {
    assert_eq!(ModeState::Steady { index: 3 }.progress_milli(), 1000);
    assert_eq!(ModeState::Transitioning { from: 0, to: 1, elapsed: 0 }.progress_milli(), 0);
    assert_eq!(
        ModeState::Transitioning { from: 0, to: 1, elapsed: 250_000 }.progress_milli(),
        500
    );
    assert_eq!(
        ModeState::Transitioning { from: 0, to: 1, elapsed: 499_999 }.progress_milli(),
        999
    );
    assert_eq!(
        ModeState::Transitioning { from: 0, to: 1, elapsed: 900_000 }.progress_milli(),
        1000
    );
}

#[test]
fn advance_completes_an_overdue_handoff() {
    let overdue = ModeState::Transitioning { from: 2, to: 4, elapsed: u64::MAX };
    assert_eq!(overdue.advance(u64::MAX), ModeState::Steady { index: 4 });
    assert_eq!(overdue.advance(0), ModeState::Steady { index: 4 });
    assert_eq!(overdue.active(), 4);
}
