use progress_observer::Observer;
use progress_observer::Options;
use progress_observer::ScaleFactor;

#[test]
fn slow_window_keeps_size_at_floor() {
    // Target one time-unit of 1000 ns; the first window takes two units, so
    // the ratio is 2.0, the raw estimate 1 / 2.0 rounds down to 0, and the
    // size is clamped up to the floor of 1.
    let mut o = Observer::new_with(1_000, Options::default()).unwrap();
    let fired = o.tick_n_at(1, 2_000);
    assert!(fired);
    assert_eq!(o.checkpoint_size, 1);
    assert_eq!(o.next_checkpoint, 2);
}

#[test]
fn fast_window_doubles_size() {
    // Same setup, but the window takes half a unit: ratio 0.5, raw estimate
    // 1 / 0.5 = 2, within the growth cap of 1 * 2.
    let mut o = Observer::new_with(1_000, Options::default()).unwrap();
    let fired = o.tick_n_at(1, 500);
    assert!(fired);
    assert_eq!(o.checkpoint_size, 2);
    assert_eq!(o.next_checkpoint, 3);
}

#[test]
fn ceiling_saturates_at_five() {
    // Windows of one nanosecond against a huge target would grow the size
    // without bound; the ceiling of 5 must hold it at exactly 5.
    let mut o = Observer::new_with(
        1_000_000,
        Options {
            max_checkpoint_size: Some(5),
            ..Default::default()
        },
    )
    .unwrap();
    let mut now: u64 = 0;
    let mut reports: u32 = 0;
    while reports < 20 {
        now += 1;
        if o.tick_n_at(1, now) {
            reports += 1;
            assert!(o.checkpoint_size <= 5);
        }
    }
    assert_eq!(o.checkpoint_size, 5);
}

#[test]
fn huge_elapsed_clamps_to_one() {
    let mut o = Observer::new_starting_at(1_000, 4);
    let fired = o.tick_n_at(4, u64::MAX);
    assert!(fired);
    assert_eq!(o.checkpoint_size, 1);
    assert_eq!(o.next_checkpoint, 5);
}

#[test]
fn zero_elapsed_grows_by_scale_factor() {
    // A window with no measurable elapsed time grows straight to the cap.
    let mut o = Observer::new_starting_at(1_000, 4);
    let fired = o.tick_n_at(4, 0);
    assert!(fired);
    assert_eq!(o.checkpoint_size, 8);
    assert_eq!(o.next_checkpoint, 12);
}

#[test]
fn delay_absorbs_initial_ticks() {
    let mut o = Observer::new_with(
        1_000,
        Options {
            delay: 3,
            ..Default::default()
        },
    )
    .unwrap();
    assert!(!o.tick_n_at(1, 10));
    assert_eq!(o.delay, 2);
    assert!(!o.tick_n_at(1, 20));
    assert_eq!(o.delay, 1);
    // This call consumes the last warm-up tick: timing restarts here.
    assert!(!o.tick_n_at(1, 30));
    assert_eq!(o.delay, 0);
    assert_eq!(o.first_observation, 30);
    assert_eq!(o.last_observation, 30);
    assert_eq!(o.ticks, 0);
    // The next tick is part of the first real window, measured from 30.
    let fired = o.tick_n_at(1, 2_030);
    assert!(fired);
    assert_eq!(o.checkpoint_size, 1);
}

#[test]
fn run_for_cutoff_stops_sequence() {
    let mut o = Observer::new_with(
        1_000,
        Options {
            run_for: Some(10_000),
            ..Default::default()
        },
    )
    .unwrap();
    // The checkpoint that crosses the cutoff still reports...
    match o.next_at(20_000) {
        Some(fired) => assert!(fired),
        None => panic!("the sequence ended before the cutoff"),
    }
    assert!(o.finished);
    // ...but the sequence form is exhausted afterwards.
    assert_eq!(o.next_at(20_001), None);
    // Direct ticks keep functioning; finished stays set.
    assert!(o.tick_n_at(100, 25_000));
    assert!(o.finished);
}

#[test]
fn zero_ticks_is_a_no_op() {
    let mut o = Observer::new_starting_at(1_000, 1);
    // A jump far past the checkpoint leaves a backlog of due reports.
    assert!(o.tick_n_at(5, 1_000));
    assert_eq!(o.next_checkpoint, 2);
    // Even so, a zero increment reports nothing and changes nothing.
    assert!(!o.tick_n_at(0, 1_001));
    assert_eq!(o.ticks, 5);
    assert_eq!(o.next_checkpoint, 2);
    // The backlog reports on the next real tick.
    assert!(o.tick_n_at(1, 1_002));
}

#[test]
fn next_checkpoint_never_decreases() {
    let mut o = Observer::new_with(1_000, Options::default()).unwrap();
    let mut now: u64 = 0;
    let mut prev: u64 = o.next_checkpoint;
    let mut k: u64 = 0;
    while k < 200 {
        now += (k * 37) % 91;
        let fired = o.tick_n_at(k % 7, now);
        assert!(o.next_checkpoint >= prev);
        if fired {
            // Each increase is exactly the size computed at that step.
            assert_eq!(o.next_checkpoint, prev + o.checkpoint_size);
        } else {
            assert_eq!(o.next_checkpoint, prev);
        }
        prev = o.next_checkpoint;
        k += 1;
    }
}

#[test]
fn growth_bounded_by_scale_factor() {
    // Factor 5/2; every window is one nanosecond, so only the factor limits
    // growth: 1, 2, 5, 12, 30, ...
    let mut o = Observer::new_with(
        1_000_000,
        Options {
            max_scale_factor: ScaleFactor { num: 5, den: 2 },
            ..Default::default()
        },
    )
    .unwrap();
    let mut now: u64 = 0;
    let mut k: u32 = 0;
    while k < 7 {
        let before = o.checkpoint_size;
        now += 1;
        let fired = o.tick_n_at(before, now);
        assert!(fired);
        assert!((o.checkpoint_size as u128) * 2 <= (before as u128) * 5);
        k += 1;
    }
    assert_eq!(o.checkpoint_size, 467);
}

#[test]
fn tick_counter_saturates() {
    let mut o = Observer::new_starting_at(1_000, u64::MAX);
    assert!(!o.tick_n_at(u64::MAX - 1, 5));
    assert_eq!(o.ticks, u64::MAX - 1);
    assert!(o.tick_n_at(u64::MAX, 10));
    assert_eq!(o.ticks, u64::MAX);
    assert_eq!(o.next_checkpoint, u64::MAX);
}
