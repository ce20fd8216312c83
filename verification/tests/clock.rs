use metriclock::clock::{DEFAULT_TURN_SECONDS, EPOCH_TURN_SECONDS};
use metriclock::{ClockMode, ClockSpeed, SimulationClock, SimulationDuration};
use std::time::Duration;

#[test]
fn clock_test() {
    let mut clock = SimulationClock::default();
    let mut seconds_since_startup = Duration::default();
    let mut seconds_since_update = Duration::default();
    while seconds_since_startup.as_secs_f64() < 20.0 {
        seconds_since_startup += Duration::from_secs_f64(1.0 / 60.0);
        seconds_since_update += Duration::from_secs_f64(1.0 / 60.0);
        clock.tick(SimulationDuration::new(
            seconds_since_update.as_secs(),
            seconds_since_update.subsec_nanos(),
        ));
    }
    clock.enable_turn_mode();
    while seconds_since_startup.as_secs_f64() < 40.0 {
        seconds_since_startup += Duration::from_secs_f64(1.0 / 60.0);
        seconds_since_update += Duration::from_secs_f64(1.0 / 60.0);
        clock.tick(SimulationDuration::new(
            seconds_since_update.as_secs(),
            seconds_since_update.subsec_nanos(),
        ));
        if clock.turn_complete() {
            clock.advance_turn();
        }
    }
    clock.disable_turn_mode();
    while seconds_since_startup.as_secs_f64() < 60.0 {
        seconds_since_startup += Duration::from_secs_f64(1.0 / 60.0);
        seconds_since_update += Duration::from_secs_f64(1.0 / 60.0);
        clock.tick(SimulationDuration::new(
            seconds_since_update.as_secs(),
            seconds_since_update.subsec_nanos(),
        ));
    }
}

#[test]
fn sixty_frames_a_second_through_both_modes() {
    let frame: u128 = 16_666_667;
    let mut clock = SimulationClock::default();
    let mut since_startup: u128 = 0;
    let mut since_update: u128 = 0;
    while since_startup < 20_000_000_000 {
        since_startup += frame;
        since_update += frame;
        clock.tick(SimulationDuration::checked_from_nanos(since_update).unwrap());
    }
    assert_eq!(clock.current_timestamp().duration().as_nanos(), 12_010_000_240_200);
    clock.enable_turn_mode();
    assert_eq!(clock.clock_mode(), ClockMode::TurnBased);
    let mut turns = 0;
    while since_startup < 40_000_000_000 {
        since_startup += frame;
        since_update += frame;
        clock.tick(SimulationDuration::checked_from_nanos(since_update).unwrap());
        if clock.turn_complete() {
            clock.advance_turn();
            turns += 1;
        }
    }
    assert_eq!(turns, 1200);
    assert_eq!(clock.current_timestamp().duration().as_nanos(), 48_020_000_960_400);
    assert_eq!(clock.turn_time_remaining().as_nanos(), 6_000_000_000);
    clock.disable_turn_mode();
    assert_eq!(clock.clock_mode(), ClockMode::RealTime);
    assert_eq!(clock.turn_time_remaining().as_nanos(), 0);
    while since_startup < 60_000_000_000 {
        since_startup += frame;
        since_update += frame;
        clock.tick(SimulationDuration::checked_from_nanos(since_update).unwrap());
    }
    assert_eq!(clock.current_timestamp().duration().as_nanos(), 108_030_002_160_600);
    assert_eq!(clock.current_epoch_seconds(), (108_030, 2_160_600));
    assert_eq!(clock.current_timestamp().to_string(), "108030.0021606");
    assert_eq!(clock.current_datetime().to_string(), "0-00-00-01@00:80:30.0000");
}

#[test]
fn default_clock_starts_at_the_epoch_in_real_time() {
    let mut clock = SimulationClock::default();
    assert_eq!(clock.current_timestamp().duration().as_nanos(), 0);
    assert_eq!(clock.clock_mode(), ClockMode::RealTime);
    assert_eq!(clock.clock_speed(), ClockSpeed::real_time());
    assert_eq!(clock.clock_speed(), ClockSpeed { mantissa: 1, exponent: 0 });
    assert_eq!(clock.turn_duration().as_nanos(), 6_000_000_000);
    assert_eq!(DEFAULT_TURN_SECONDS, 6);
    assert_eq!(clock.turn_time_remaining().as_nanos(), 0);
    clock.tick(SimulationDuration::from_secs(5));
    assert_eq!(clock.current_timestamp().duration().as_nanos(), 5_000_000_000);
    assert_eq!(clock.current_epoch_seconds(), (5, 0));
}

#[test]
fn clock_from_seconds_is_paused() {
    let mut clock = SimulationClock::from_seconds(10);
    assert_eq!(clock.clock_speed(), ClockSpeed::paused());
    assert_eq!(Some(clock.clock_speed()), ClockSpeed::from_binary64(0.0f64.to_bits()));
    assert_eq!(clock.clock_mode(), ClockMode::RealTime);
    assert_eq!(clock.turn_duration().as_nanos(), 3_000_000_000);
    assert_eq!(EPOCH_TURN_SECONDS, 3);
    assert_eq!(clock.turn_time_remaining().as_nanos(), 0);
    assert_eq!(clock.current_epoch_seconds(), (10, 0));
    clock.tick(SimulationDuration::from_secs(7));
    assert_eq!(clock.current_timestamp().duration().as_nanos(), 10_000_000_000);
    clock.tick(SimulationDuration::new(u64::MAX, 999_999_999));
    assert_eq!(clock.current_timestamp().duration().as_nanos(), 10_000_000_000);
    clock.enable_turn_mode();
    clock.tick(SimulationDuration::from_secs(7));
    assert_eq!(clock.current_timestamp().duration().as_nanos(), 10_000_000_000);
    assert_eq!(clock.turn_time_remaining().as_nanos(), 3_000_000_000);
}

#[test]
fn clock_from_metric_timestamp_encodes_the_fields() {
    let clock = SimulationClock::from_metric_timestamp(1, 2, 3, 4, 5, 6, 7);
    assert_eq!(clock.current_epoch_seconds(), (123_450_607, 0));
    assert_eq!(clock.clock_mode(), ClockMode::RealTime);
    assert_eq!(clock.clock_speed(), ClockSpeed::real_time());
    assert_eq!(clock.turn_duration().as_nanos(), 6_000_000_000);
    assert_eq!(clock.turn_time_remaining().as_nanos(), 0);
    let datetime = clock.current_datetime();
    assert_eq!(
        (
            datetime.year,
            datetime.month,
            datetime.week,
            datetime.day,
            datetime.hour,
            datetime.minute,
            datetime.second
        ),
        (1, 2, 3, 4, 5, 6, 7)
    );
}

#[test]
fn clock_from_metric_timestamp_does_not_carry() {
    let clock = SimulationClock::from_metric_timestamp(0, 12, 0, 0, 0, 150, 250);
    assert_eq!(clock.current_epoch_seconds(), (120_015_250, 0));
    let datetime = clock.current_datetime();
    assert_eq!(
        (
            datetime.year,
            datetime.month,
            datetime.week,
            datetime.day,
            datetime.hour,
            datetime.minute,
            datetime.second
        ),
        (1, 2, 0, 0, 1, 52, 50)
    );
}

#[test]
fn real_time_ticks_add_up_at_whole_speeds() {
    let first = SimulationDuration::new(1, 250_000_001);
    let second = SimulationDuration::new(2, 999_999_999);
    let sum = first.checked_add(second).unwrap();
    for times in [1u64, 2, 0, 7] {
        let mut stepwise = SimulationClock::default();
        stepwise.set_clock_speed(ClockSpeed::whole(times));
        let mut at_once = stepwise.clone();
        stepwise.tick(first);
        stepwise.tick(second);
        at_once.tick(sum);
        assert_eq!(
            stepwise.current_timestamp().duration().as_nanos(),
            at_once.current_timestamp().duration().as_nanos()
        );
        assert_eq!(
            at_once.current_timestamp().duration().as_nanos(),
            4_250_000_000 * (times as u128)
        );
    }
}

#[test]
fn real_time_ticks_lag_by_one_when_fractions_add_up() {
    let mut stepwise = SimulationClock::default();
    stepwise.set_clock_speed(ClockSpeed { mantissa: 1, exponent: -1 });
    let mut at_once = stepwise.clone();
    stepwise.tick(SimulationDuration::new(0, 1));
    stepwise.tick(SimulationDuration::new(0, 1));
    at_once.tick(SimulationDuration::new(0, 2));
    assert_eq!(stepwise.current_timestamp().duration().as_nanos(), 0);
    assert_eq!(at_once.current_timestamp().duration().as_nanos(), 1);
}

#[test]
fn speed_scales_every_tick() {
    let mut clock = SimulationClock::default();
    clock.set_clock_speed(ClockSpeed { mantissa: 5, exponent: -1 });
    assert_eq!(clock.clock_speed(), ClockSpeed { mantissa: 5, exponent: -1 });
    clock.tick(SimulationDuration::from_secs(4));
    assert_eq!(clock.current_timestamp().duration().as_nanos(), 10_000_000_000);
    clock.set_clock_speed(ClockSpeed::from_binary64(0.3f64.to_bits()).unwrap());
    clock.tick(SimulationDuration::new(0, 11));
    assert_eq!(clock.current_timestamp().duration().as_nanos(), 10_000_000_003);
    assert_eq!(clock.clock_mode(), ClockMode::RealTime);
    assert_eq!(clock.turn_duration().as_nanos(), 6_000_000_000);
}

#[test]
fn turn_based_tick_spends_the_turn() {
    let mut clock = SimulationClock::default();
    clock.set_clock_speed(ClockSpeed::whole(2));
    clock.enable_turn_mode();
    assert_eq!(clock.clock_mode(), ClockMode::TurnBased);
    assert_eq!(clock.turn_time_remaining().as_nanos(), 6_000_000_000);
    assert!(!clock.turn_complete());
    clock.tick(SimulationDuration::from_secs(1));
    assert_eq!(clock.current_timestamp().duration().as_nanos(), 2_000_000_000);
    assert_eq!(clock.turn_time_remaining().as_nanos(), 4_000_000_000);
    clock.tick(SimulationDuration::from_secs(2));
    assert_eq!(clock.current_timestamp().duration().as_nanos(), 6_000_000_000);
    assert_eq!(clock.turn_time_remaining().as_nanos(), 0);
    assert!(clock.turn_complete());
}

#[test]
fn turn_based_tick_past_the_turn_counts_in_full() {
    let mut clock = SimulationClock::default();
    clock.enable_turn_mode();
    clock.tick(SimulationDuration::from_secs(4));
    assert_eq!(clock.turn_time_remaining().as_nanos(), 2_000_000_000);
    clock.tick(SimulationDuration::from_secs(10));
    assert_eq!(clock.current_timestamp().duration().as_nanos(), 14_000_000_000);
    assert_eq!(clock.turn_time_remaining().as_nanos(), 0);
    assert!(clock.turn_complete());
}

#[test]
fn ticks_between_turns_change_nothing() {
    let mut clock = SimulationClock::default();
    clock.enable_turn_mode();
    clock.tick(SimulationDuration::from_secs(6));
    assert!(clock.turn_complete());
    assert_eq!(clock.current_epoch_seconds(), (6, 0));
    for seconds in [1, 5, 1_000_000] {
        clock.tick(SimulationDuration::from_secs(seconds));
        assert_eq!(clock.current_timestamp().duration().as_nanos(), 6_000_000_000);
        assert_eq!(clock.turn_time_remaining().as_nanos(), 0);
        assert_eq!(clock.clock_mode(), ClockMode::TurnBased);
    }
    clock.tick(SimulationDuration::new(u64::MAX, 999_999_999));
    assert_eq!(clock.current_timestamp().duration().as_nanos(), 6_000_000_000);
    clock.advance_turn();
    assert_eq!(clock.turn_time_remaining().as_nanos(), 6_000_000_000);
    clock.tick(SimulationDuration::from_secs(1));
    assert_eq!(clock.current_timestamp().duration().as_nanos(), 7_000_000_000);
    assert_eq!(clock.turn_time_remaining().as_nanos(), 5_000_000_000);
}

#[test]
fn advance_turn_waits_for_the_turn_to_end() {
    let mut clock = SimulationClock::default();
    clock.advance_turn();
    assert_eq!(clock.clock_mode(), ClockMode::RealTime);
    assert_eq!(clock.turn_time_remaining().as_nanos(), 0);
    clock.enable_turn_mode();
    clock.tick(SimulationDuration::from_secs(2));
    clock.advance_turn();
    assert_eq!(clock.turn_time_remaining().as_nanos(), 4_000_000_000);
    assert_eq!(clock.current_epoch_seconds(), (2, 0));
    clock.tick(SimulationDuration::from_secs(4));
    clock.advance_turn();
    assert_eq!(clock.turn_time_remaining().as_nanos(), 6_000_000_000);
    assert_eq!(clock.current_epoch_seconds(), (6, 0));
}

#[test]
fn turn_is_complete_throughout_real_time() {
    let mut clock = SimulationClock::default();
    assert!(clock.turn_complete());
    clock.tick(SimulationDuration::from_secs(1));
    assert!(clock.turn_complete());
    clock.enable_turn_mode();
    assert!(!clock.turn_complete());
    clock.disable_turn_mode();
    assert!(clock.turn_complete());
}

#[test]
fn enable_then_disable_leaves_the_time_alone() {
    let mut clock = SimulationClock::default();
    clock.tick(SimulationDuration::new(3, 5));
    clock.enable_turn_mode();
    assert_eq!(clock.clock_mode(), ClockMode::TurnBased);
    clock.disable_turn_mode();
    assert_eq!(clock.clock_mode(), ClockMode::RealTime);
    assert_eq!(clock.turn_time_remaining().as_nanos(), 0);
    assert_eq!(clock.current_timestamp().duration().as_nanos(), 3_000_000_005);
    assert_eq!(clock.clock_speed(), ClockSpeed::real_time());
    assert_eq!(clock.turn_duration().as_nanos(), 6_000_000_000);
}

#[test]
fn mode_requests_are_idempotent() {
    let mut clock = SimulationClock::default();
    clock.disable_turn_mode();
    assert_eq!(clock.clock_mode(), ClockMode::RealTime);
    clock.enable_turn_mode();
    clock.tick(SimulationDuration::from_secs(1));
    clock.enable_turn_mode();
    assert_eq!(clock.clock_mode(), ClockMode::TurnBased);
    assert_eq!(clock.turn_time_remaining().as_nanos(), 5_000_000_000);
}

#[test]
fn checked_tick_refuses_what_does_not_fit() {
    let longest = SimulationDuration::new(u64::MAX, 999_999_999);
    let mut clock = SimulationClock::default();
    assert!(clock.checked_tick(longest));
    assert_eq!(clock.current_timestamp().duration().as_nanos(), longest.as_nanos());
    assert!(!clock.checked_tick(SimulationDuration::new(0, 1)));
    assert_eq!(clock.current_timestamp().duration().as_nanos(), longest.as_nanos());
    assert!(clock.checked_tick(SimulationDuration::zero()));

    let mut fast = SimulationClock::default();
    fast.set_clock_speed(ClockSpeed::whole(2));
    fast.enable_turn_mode();
    assert!(!fast.checked_tick(longest));
    assert_eq!(fast.current_timestamp().duration().as_nanos(), 0);
    assert_eq!(fast.turn_time_remaining().as_nanos(), 6_000_000_000);
    assert!(fast.checked_tick(SimulationDuration::from_secs(3)));
    assert!(fast.turn_complete());
    assert!(fast.checked_tick(longest));
    assert_eq!(fast.current_timestamp().duration().as_nanos(), 6_000_000_000);
}

#[test]
fn from_parts_takes_only_well_formed_states() {
    let six = SimulationDuration::from_secs(6);
    let two = SimulationDuration::from_secs(2);
    let none = SimulationDuration::zero();
    let clock = SimulationClock::from_parts(
        SimulationDuration::new(9, 1),
        ClockMode::TurnBased,
        ClockSpeed { mantissa: 1, exponent: -2 },
        six,
        two,
    )
    .unwrap();
    assert_eq!(clock.current_timestamp().duration().as_nanos(), 9_000_000_001);
    assert_eq!(clock.clock_mode(), ClockMode::TurnBased);
    assert_eq!(clock.clock_speed(), ClockSpeed { mantissa: 1, exponent: -2 });
    assert_eq!(clock.turn_duration().as_nanos(), 6_000_000_000);
    assert_eq!(clock.turn_time_remaining().as_nanos(), 2_000_000_000);
    assert!(SimulationClock::from_parts(none, ClockMode::RealTime, ClockSpeed::real_time(), six, none).is_some());
    assert!(SimulationClock::from_parts(none, ClockMode::TurnBased, ClockSpeed::real_time(), six, six).is_some());
    assert!(SimulationClock::from_parts(none, ClockMode::TurnBased, ClockSpeed::real_time(), none, none).is_some());
    assert!(SimulationClock::from_parts(none, ClockMode::RealTime, ClockSpeed::real_time(), six, two).is_none());
    assert!(SimulationClock::from_parts(none, ClockMode::TurnBased, ClockSpeed::real_time(), two, six).is_none());
}

#[test]
fn turns_of_no_length_never_resume() {
    let none = SimulationDuration::zero();
    let mut clock =
        SimulationClock::from_parts(none, ClockMode::RealTime, ClockSpeed::real_time(), none, none)
            .unwrap();
    clock.tick(SimulationDuration::from_secs(1));
    clock.enable_turn_mode();
    assert!(clock.turn_complete());
    clock.advance_turn();
    clock.tick(SimulationDuration::from_secs(1));
    assert_eq!(clock.current_epoch_seconds(), (1, 0));
}

#[test]
fn clone_is_a_separate_clock() {
    let mut clock = SimulationClock::from_seconds(4);
    clock.set_clock_speed(ClockSpeed::real_time());
    let copy = clock.clone();
    clock.tick(SimulationDuration::from_secs(1));
    assert_eq!(clock.current_epoch_seconds(), (5, 0));
    assert_eq!(copy.current_epoch_seconds(), (4, 0));
    assert_eq!(copy.clock_speed(), ClockSpeed::real_time());
    assert_eq!(copy.turn_duration().as_nanos(), 3_000_000_000);
}

#[test]
fn speeds_far_from_one_still_scale() {
    let mut fast = SimulationClock::default();
    fast.set_clock_speed(ClockSpeed::from_binary64(2e10f64.to_bits()).unwrap());
    fast.tick(SimulationDuration::new(0, 500_000_000));
    assert_eq!(fast.current_epoch_seconds(), (10_000_000_000, 0));
    let mut slow = SimulationClock::default();
    slow.set_clock_speed(ClockSpeed::from_binary64(1e-10f64.to_bits()).unwrap());
    slow.tick(SimulationDuration::from_secs(30_000_000_000));
    assert_eq!(slow.current_epoch_seconds(), (3, 0));
    slow.tick(SimulationDuration::new(9, 999_999_999));
    assert_eq!(slow.current_epoch_seconds(), (3, 0));
}
