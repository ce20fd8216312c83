use metriclock::{ClockSpeed, SimulationDuration};

#[test]
fn speed_constants() {
    assert_eq!(ClockSpeed::paused(), ClockSpeed { mantissa: 0, exponent: 0 });
    assert_eq!(ClockSpeed::real_time(), ClockSpeed { mantissa: 1, exponent: 0 });
    assert_eq!(ClockSpeed::whole(7), ClockSpeed { mantissa: 7, exponent: 0 });
    assert_eq!(ClockSpeed::whole(1), ClockSpeed::real_time());
    assert_eq!(ClockSpeed::whole(0), ClockSpeed::paused());
}

#[test]
fn speed_from_binary64_reads_the_bits() {
    assert_eq!(
        ClockSpeed::from_binary64(1.0f64.to_bits()),
        Some(ClockSpeed { mantissa: 4_503_599_627_370_496, exponent: -52 })
    );
    assert_eq!(
        ClockSpeed::from_binary64(0x4000_0000_0000_0000),
        Some(ClockSpeed { mantissa: 4_503_599_627_370_496, exponent: -51 })
    );
    assert_eq!(
        ClockSpeed::from_binary64(2.5f64.to_bits()),
        Some(ClockSpeed { mantissa: 5_629_499_534_213_120, exponent: -51 })
    );
    assert_eq!(
        ClockSpeed::from_binary64(0.1f64.to_bits()),
        Some(ClockSpeed { mantissa: 7_205_759_403_792_794, exponent: -56 })
    );
    assert_eq!(
        ClockSpeed::from_binary64(f64::MAX.to_bits()),
        Some(ClockSpeed { mantissa: 9_007_199_254_740_991, exponent: 971 })
    );
    assert_eq!(
        ClockSpeed::from_binary64(1),
        Some(ClockSpeed { mantissa: 1, exponent: -1074 })
    );
    assert_eq!(
        ClockSpeed::from_binary64(f64::MIN_POSITIVE.to_bits()),
        Some(ClockSpeed { mantissa: 4_503_599_627_370_496, exponent: -1074 })
    );
}

#[test]
fn speed_from_binary64_of_zero_is_paused() {
    assert_eq!(ClockSpeed::from_binary64(0.0f64.to_bits()), Some(ClockSpeed::paused()));
    assert_eq!(ClockSpeed::from_binary64((-0.0f64).to_bits()), Some(ClockSpeed::paused()));
}

#[test]
fn speed_from_binary64_refuses_what_is_no_speed() {
    assert_eq!(ClockSpeed::from_binary64((-1.0f64).to_bits()), None);
    assert_eq!(ClockSpeed::from_binary64((-5e-324f64).to_bits()), None);
    assert_eq!(ClockSpeed::from_binary64(f64::MIN.to_bits()), None);
    assert_eq!(ClockSpeed::from_binary64(f64::INFINITY.to_bits()), None);
    assert_eq!(ClockSpeed::from_binary64(f64::NEG_INFINITY.to_bits()), None);
    assert_eq!(ClockSpeed::from_binary64(f64::NAN.to_bits()), None);
    assert_eq!(ClockSpeed::from_binary64(u64::MAX), None);
}

#[test]
fn scale_by_whole_speeds() {
    let d = SimulationDuration::new(2, 500_000_000);
    assert_eq!(ClockSpeed::real_time().checked_scale(d), Some(d));
    assert_eq!(ClockSpeed::paused().checked_scale(d), Some(SimulationDuration::zero()));
    assert_eq!(ClockSpeed::whole(2).checked_scale(d), Some(SimulationDuration::from_secs(5)));
    assert_eq!(
        ClockSpeed { mantissa: 1, exponent: 3 }.checked_scale(d),
        Some(SimulationDuration::from_secs(20))
    );
    assert_eq!(
        ClockSpeed { mantissa: 3, exponent: 2 }.checked_scale(d),
        Some(SimulationDuration::from_secs(30))
    );
    assert_eq!(
        ClockSpeed::whole(u64::MAX).checked_scale(SimulationDuration::new(0, 999_999_999)),
        SimulationDuration::checked_from_nanos(18_446_744_055_262_807_541_290_448_385)
    );
    assert_eq!(
        ClockSpeed { mantissa: 1, exponent: 93 }.checked_scale(SimulationDuration::new(0, 1)),
        SimulationDuration::checked_from_nanos(9_903_520_314_283_042_199_192_993_792)
    );
}

#[test]
fn scale_by_fractions_drops_what_is_left() {
    let d = SimulationDuration::new(2, 500_000_000);
    let half = ClockSpeed { mantissa: 1, exponent: -1 };
    assert_eq!(half.checked_scale(d), Some(SimulationDuration::new(1, 250_000_000)));
    assert_eq!(half.checked_scale(SimulationDuration::new(0, 3)), Some(SimulationDuration::new(0, 1)));
    assert_eq!(half.checked_scale(SimulationDuration::new(0, 1)), Some(SimulationDuration::zero()));
    let three_quarters = ClockSpeed { mantissa: 3, exponent: -2 };
    assert_eq!(
        three_quarters.checked_scale(SimulationDuration::new(0, 10)),
        Some(SimulationDuration::new(0, 7))
    );
    let tenth = ClockSpeed::from_binary64(0.1f64.to_bits()).unwrap();
    assert_eq!(
        tenth.checked_scale(SimulationDuration::from_secs(1)),
        Some(SimulationDuration::new(0, 100_000_000))
    );
    let one = ClockSpeed::from_binary64(1.0f64.to_bits()).unwrap();
    assert_eq!(one.checked_scale(d), Some(d));
}

#[test]
fn scale_of_the_longest_span() {
    let longest = SimulationDuration::new(u64::MAX, 999_999_999);
    assert_eq!(ClockSpeed::real_time().checked_scale(longest), Some(longest));
    let one = ClockSpeed::from_binary64(1.0f64.to_bits()).unwrap();
    assert_eq!(one.checked_scale(longest), Some(longest));
    let tenth = ClockSpeed::from_binary64(0.1f64.to_bits()).unwrap();
    assert_eq!(
        tenth.checked_scale(longest),
        SimulationDuration::checked_from_nanos(1_844_674_407_370_955_263_999_999_999)
    );
    assert_eq!(
        ClockSpeed { mantissa: 1, exponent: -1 }.checked_scale(longest),
        SimulationDuration::checked_from_nanos(9_223_372_036_854_775_807_999_999_999)
    );
    assert_eq!(
        ClockSpeed { mantissa: 1, exponent: -64 }.checked_scale(longest),
        Some(SimulationDuration::new(0, 999_999_999))
    );
    assert_eq!(
        ClockSpeed { mantissa: 1, exponent: -70 }.checked_scale(longest),
        Some(SimulationDuration::new(0, 15_624_999))
    );
    assert_eq!(
        ClockSpeed { mantissa: u64::MAX, exponent: -64 }.checked_scale(longest),
        SimulationDuration::checked_from_nanos(18_446_744_073_709_551_614_999_999_999)
    );
    assert_eq!(
        ClockSpeed { mantissa: u64::MAX, exponent: -65 }.checked_scale(longest),
        SimulationDuration::checked_from_nanos(9_223_372_036_854_775_807_499_999_999)
    );
    assert_eq!(
        ClockSpeed { mantissa: u64::MAX, exponent: -200 }.checked_scale(longest),
        Some(SimulationDuration::zero())
    );
    assert_eq!(
        ClockSpeed { mantissa: u64::MAX, exponent: i32::MIN }.checked_scale(longest),
        Some(SimulationDuration::zero())
    );
    assert_eq!(
        ClockSpeed::from_binary64(1).unwrap().checked_scale(longest),
        Some(SimulationDuration::zero())
    );
}

#[test]
fn scale_reports_what_does_not_fit() {
    let longest = SimulationDuration::new(u64::MAX, 999_999_999);
    assert_eq!(ClockSpeed::whole(2).checked_scale(longest), None);
    assert_eq!(ClockSpeed { mantissa: 3, exponent: -1 }.checked_scale(longest), None);
    assert_eq!(ClockSpeed { mantissa: u64::MAX, exponent: -63 }.checked_scale(longest), None);
    assert_eq!(ClockSpeed::whole(u64::MAX).checked_scale(longest), None);
    assert_eq!(
        ClockSpeed::whole(u64::MAX).checked_scale(SimulationDuration::new(1, 1)),
        None
    );
    let one = SimulationDuration::new(0, 1);
    assert_eq!(ClockSpeed { mantissa: 1, exponent: 94 }.checked_scale(one), None);
    assert_eq!(ClockSpeed { mantissa: 2, exponent: 93 }.checked_scale(one), None);
    assert_eq!(ClockSpeed { mantissa: 1, exponent: i32::MAX }.checked_scale(one), None);
    assert_eq!(ClockSpeed::from_binary64(f64::MAX.to_bits()).unwrap().checked_scale(one), None);
    let none = SimulationDuration::zero();
    assert_eq!(ClockSpeed { mantissa: 1, exponent: i32::MAX }.checked_scale(none), Some(none));
    assert_eq!(
        ClockSpeed::from_binary64(f64::MAX.to_bits()).unwrap().checked_scale(none),
        Some(none)
    );
    assert_eq!(ClockSpeed { mantissa: 0, exponent: 500 }.checked_scale(longest), Some(none));
}
