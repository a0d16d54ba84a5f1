use progress_observer::Observer;
use progress_observer::ObserverError;
use progress_observer::Options;
use progress_observer::ScaleFactor;

#[test]
fn invalid_scale_factor_rejected() {
    let below_one = Observer::new_with(
        1_000,
        Options {
            max_scale_factor: ScaleFactor { num: 1, den: 2 },
            ..Default::default()
        },
    );
    assert!(matches!(below_one, Err(ObserverError::InvalidConfiguration)));

    let exactly_one = Observer::new_with(
        1_000,
        Options {
            max_scale_factor: ScaleFactor { num: 1, den: 1 },
            ..Default::default()
        },
    );
    assert!(exactly_one.is_ok());

    let zero_denominator = Observer::new_with(
        1_000,
        Options {
            max_scale_factor: ScaleFactor { num: 3, den: 0 },
            ..Default::default()
        },
    );
    assert!(matches!(zero_denominator, Err(ObserverError::InvalidConfiguration)));
}

#[test]
fn default_options() {
    let opts = Options::default();
    assert_eq!(opts.first_checkpoint, 1);
    assert_eq!(opts.max_checkpoint_size, None);
    assert_eq!(opts.delay, 0);
    assert_eq!(opts.max_scale_factor, ScaleFactor { num: 2, den: 1 });
    assert_eq!(opts.run_for, None);
}

#[test]
fn whole_scale_factor() {
    assert_eq!(ScaleFactor::whole(3), ScaleFactor { num: 3, den: 1 });
}

#[test]
fn construction_initializes_state() {
    let o = Observer::new_starting_at(9_999, 42);
    assert_eq!(o.frequency_target, 9_999);
    assert_eq!(o.checkpoint_size, 42);
    assert_eq!(o.next_checkpoint, 42);
    assert_eq!(o.ticks, 0);
    assert_eq!(o.delay, 0);
    assert_eq!(o.last_observation, 0);
    assert_eq!(o.first_observation, 0);
    assert!(!o.finished);
    assert!(o.is_wf());
}
