use progress_observer::Observer;
use progress_observer::Options;

#[test]
fn delay() {
    let mut observer = Observer::new_with(
        1_000_000_000,
        Options {
            max_checkpoint_size: Some(2),
            delay: 5,
            ..Default::default()
        },
    )
    .unwrap();
    let mut i: usize = 0;
    while i < 10 {
        match observer.next() {
            Some(should_print) => println!("{i}: {should_print}"),
            None => break,
        }
        i += 1;
    }
}

#[test]
fn run_for() {
    let mut observer = Observer::new_with(
        100_000_000,
        Options {
            run_for: Some(5_000_000_000),
            ..Default::default()
        },
    )
    .unwrap();
    let mut i: u64 = 0;
    loop {
        match observer.next() {
            Some(should_print) => {
                if should_print {
                    println!("{i}");
                }
            }
            None => break,
        }
        i += 1;
    }
}

#[test]
fn real_clock_ticks() {
    // A one-microsecond target against real work: the first tick reports
    // (the first checkpoint is 1), every tick is counted, and the schedule
    // only moves forward.
    let mut o = Observer::new(1_000);
    let mut reports: u64 = 0;
    let mut prev_next: u64 = o.next_checkpoint;
    let mut i: u64 = 0;
    while i < 100_000 {
        if o.tick() {
            reports += 1;
        }
        assert!(o.next_checkpoint >= prev_next);
        prev_next = o.next_checkpoint;
        i += 1;
    }
    assert!(reports >= 1);
    assert_eq!(o.ticks, 100_000);
    assert!(!o.finished);
}

#[test]
fn real_clock_tick_n() {
    let mut o = Observer::new_starting_at(1_000, 10);
    let mut i: u64 = 0;
    while i < 100 {
        o.tick_n(10);
        i += 1;
    }
    assert_eq!(o.ticks, 1_000);
}
