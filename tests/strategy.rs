use retry_durations::{builder, Kind, TimeSpan};

fn secs(s: u64) -> TimeSpan {
    TimeSpan::from_secs(s)
}

#[test]
fn it_works() {
    let xs = builder().duration(TimeSpan::from_secs(1)).build().unwrap();
    let mut p = TimeSpan::new(0, 0);
    for x in xs.take(10) {
        assert!(p <= x);
        p = x;
    }

    println!("fixed");
    for x in builder().fixed().build().unwrap().take(10) {
        println!("{x:?}");
    }
    println!("exp");
    for x in builder()
        .exponential()
        .duration_max(Some(TimeSpan::from_secs(120)))
        .build()
        .unwrap()
        .take(10)
    {
        println!("{x:?}");
    }
}

#[test]
fn fixed_without_jitter_repeats_the_initial_duration() {
    let xs = builder().duration(secs(1)).fixed().jitter(0).build().unwrap().take(10);
    assert_eq!(xs.len(), 10);
    for x in xs {
        assert_eq!(x, secs(1));
    }
}

#[test]
fn exponential_without_jitter_doubles() {
    let xs = builder().duration(secs(1)).exponential().jitter(0).build().unwrap().take(8);
    let expected: Vec<TimeSpan> = [1, 2, 4, 8, 16, 32, 64, 128].iter().map(|s| secs(*s)).collect();
    assert_eq!(xs, expected);
}

#[test]
fn exponential_is_the_default_kind() {
    let xs = builder().duration(secs(3)).jitter(0).build().unwrap().take(3);
    assert_eq!(xs, vec![secs(3), secs(6), secs(12)]);
}

#[test]
fn exponential_stops_at_the_ceiling() {
    let xs = builder()
        .duration(secs(2))
        .exponential()
        .jitter(0)
        .duration_max(Some(secs(10)))
        .build()
        .unwrap()
        .take(6);
    assert_eq!(xs, vec![secs(2), secs(4), secs(8), secs(10), secs(10), secs(10)]);
}

#[test]
fn initial_duration_above_ceiling_is_clamped() {
    let xs = builder()
        .duration(secs(30))
        .fixed()
        .jitter(0)
        .duration_max(Some(secs(5)))
        .build()
        .unwrap()
        .take(3);
    assert_eq!(xs, vec![secs(5), secs(5), secs(5)]);
}

#[test]
fn ceiling_holds_with_jitter() {
    let max = secs(10);
    let xs = builder()
        .duration(secs(9))
        .jitter(500_000)
        .duration_max(Some(max))
        .build()
        .unwrap()
        .take(50);
    for x in xs {
        assert!(x <= max);
    }
}

#[test]
fn jittered_fixed_values_stay_in_their_window() {
    // one second, a ratio of 0.2: each value lies within 200 ms of the base
    let xs = builder().duration(secs(1)).fixed().jitter(200_000).build().unwrap().take(200);
    for x in &xs {
        assert!(x.as_nanos() >= 800_000_000, "{x:?}");
        assert!(x.as_nanos() <= 1_200_000_000, "{x:?}");
        assert_eq!(x.as_nanos() % 1_000_000, 0);
    }
    // the offsets are drawn, not pinned to one end of the window
    assert!(xs.iter().any(|x| *x != xs[0]));
}

#[test]
fn jittered_exponential_values_stay_around_each_base() {
    let xs = builder().duration(secs(1)).jitter(100_000).build().unwrap().take(10);
    let mut base: u128 = 1_000_000_000;
    for x in xs {
        let lo = base - base / 10;
        let hi = base + base / 10;
        assert!(lo <= x.as_nanos() && x.as_nanos() <= hi, "{x:?} outside [{lo}, {hi}]");
        base *= 2;
    }
}

#[test]
fn jitter_above_one_floors_at_zero() {
    // a ratio of three: offsets reach three seconds below a one second base
    let xs = builder().duration(secs(1)).fixed().jitter(3_000_000).build().unwrap().take(200);
    for x in &xs {
        assert!(x.as_nanos() <= 4_000_000_000);
    }
    assert!(xs.iter().any(|x| x.as_nanos() == 0));
}

#[test]
fn zero_duration_stays_zero() {
    let xs = builder().duration(TimeSpan::zero()).build().unwrap().take(5);
    assert_eq!(xs, vec![TimeSpan::zero(); 5]);
}

#[test]
fn doubling_saturates_at_the_longest_span() {
    let top = TimeSpan::new(u64::MAX, 999_999_999);
    let xs = builder().duration(TimeSpan::from_secs(u64::MAX / 2 + 1)).jitter(0).build().unwrap().take(3);
    assert_eq!(xs[0], TimeSpan::from_secs(u64::MAX / 2 + 1));
    assert_eq!(xs[1], top);
    assert_eq!(xs[2], top);
}

#[test]
fn pulls_never_end() {
    let mut s = builder().build().unwrap();
    assert_eq!(s.size_hint(), (usize::MAX, None));
    for _ in 0..1000 {
        assert!(s.next().is_some());
    }
    assert_eq!(s.size_hint(), (usize::MAX, None));
}

#[test]
fn defaults_are_two_seconds_with_a_tenth_of_jitter() {
    let xs = builder().build().unwrap().take(1);
    assert!(xs[0].as_nanos() >= 1_800_000_000 && xs[0].as_nanos() <= 2_200_000_000);
}

#[test]
fn last_kind_selected_wins() {
    let xs = builder().duration(secs(1)).jitter(0).fixed().exponential().build().unwrap().take(3);
    assert_eq!(xs, vec![secs(1), secs(2), secs(4)]);
    let ys = builder().duration(secs(1)).jitter(0).exponential().fixed().build().unwrap().take(3);
    assert_eq!(ys, vec![secs(1), secs(1), secs(1)]);
}

#[test]
fn clearing_the_ceiling() {
    let xs = builder()
        .duration(secs(4))
        .jitter(0)
        .duration_max(Some(secs(4)))
        .duration_max(None)
        .build()
        .unwrap()
        .take(2);
    assert_eq!(xs, vec![secs(4), secs(8)]);
}

#[test]
fn building_twice_gives_independent_strategies() {
    let mut b = builder();
    b.duration(secs(1)).fixed().jitter(0);
    let first = b.build().unwrap().take(3);
    let mut second = b.build().unwrap();
    assert_eq!(second.next(), Some(secs(1)));
    assert_eq!(first, vec![secs(1); 3]);

    b.jitter(500_000);
    let a = b.build().unwrap().take(64);
    let c = b.build().unwrap().take(64);
    assert_ne!(a, c);
}

#[test]
fn pull_with_given_offsets() {
    let mut s = builder().duration(secs(2)).duration_max(Some(secs(3))).build().unwrap();
    assert_eq!(s.spread(), 200);
    assert_eq!(s.next_with_offset(150), TimeSpan::from_millis(2150));
    // the base grew to four seconds and was held to the ceiling of three
    assert_eq!(s.spread(), 300);
    assert_eq!(s.next_with_offset(-2999), TimeSpan::from_millis(1));
    assert_eq!(s.next_with_offset(-5000), TimeSpan::zero());
    assert_eq!(s.next_with_offset(900), secs(3));
}

#[test]
fn kind_next() {
    assert_eq!(Kind::Fixed.next(secs(7)), secs(7));
    assert_eq!(Kind::Exponential.next(secs(7)), secs(14));
    assert_eq!(Kind::default(), Kind::Exponential);
}

#[test]
fn time_span_arithmetic() {
    assert_eq!(TimeSpan::new(1, 500).as_nanos(), 1_000_000_500);
    assert_eq!(TimeSpan::from_millis(1500).as_secs(), 1);
    assert_eq!(secs(3).saturating_sub(secs(5)), TimeSpan::zero());
    assert_eq!(secs(3).saturating_add(TimeSpan::from_millis(250)), TimeSpan::from_millis(3250));
    assert_eq!(secs(3).min(secs(2)), secs(2));
    let top = TimeSpan::new(u64::MAX, 999_999_999);
    assert_eq!(top.saturating_add(secs(1)), top);
    assert_eq!(secs(u64::MAX).saturating_mul(3), top);
}
