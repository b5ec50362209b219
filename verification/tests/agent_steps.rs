use simulation::agents::{
    classify, Event, ExceedEvent, Outcome, Phase, Request, StepError, TVLChanger,
};
use simulation::process::{ConfigError, ProcessParameters};

const WAD: i128 = 1_000_000_000_000_000_000;
const LIMIT: [u8; 4] = [0x5c, 0xe0, 0x81, 0x7a];

fn parameters(n_steps: usize) -> ProcessParameters {
    ProcessParameters::new(0.0_f64.to_bits(), 0.0_f64.to_bits(), 1.0_f64.to_bits(), n_steps)
        .unwrap()
}

fn agent(initial: f64, path: &[f64]) -> TVLChanger {
    let samples: Vec<u64> = path.iter().map(|x| x.to_bits()).collect();
    TVLChanger::new(parameters(path.len()), initial.to_bits(), samples).unwrap()
}

#[test]
fn new_agent_has_taken_and_logged_nothing() {
    let a = agent(1.0, &[1.5, 0.5, 2.0]);
    assert_eq!(a.last_tvl(), WAD);
    assert_eq!(a.index(), 0);
    assert_eq!(a.remaining(), 3);
    assert_eq!(a.phase(), Phase::Idle);
    assert!(a.exceed_events().is_empty());
    assert_eq!(a.params(), parameters(3));
}

#[test]
fn path_has_one_sample_per_step() {
    for n in [1usize, 2, 5, 64] {
        let path: Vec<f64> = (0..n).map(|i| 1.0 + i as f64).collect();
        let a = agent(1.0, &path);
        assert_eq!(a.path().len(), n);
        assert_eq!(a.path().len(), a.params().n_steps);
    }
}

#[test]
fn path_gives_the_samples_back_bit_for_bit() {
    let raw = [0.9, -0.25, 0.0, -0.0, 1e-30, 123456.789];
    let a = agent(1.0, &raw);
    let back: Vec<u64> = a.path();
    assert_eq!(back, raw.iter().map(|x| x.to_bits()).collect::<Vec<u64>>());
    assert_eq!(f64::from_bits(back[1]), -0.25);
    assert!(f64::from_bits(back[3]).is_sign_negative());
}

#[test]
fn the_initial_value_is_no_sample() {
    let a = agent(7.0, &[1.0, 2.0]);
    assert_eq!(a.path(), vec![1.0_f64.to_bits(), 2.0_f64.to_bits()]);
    assert_eq!(a.last_tvl(), 7 * WAD);
}

#[test]
fn unsound_parameters_are_refused() {
    let no_steps = ProcessParameters { mu: 0, sigma: 0, t_n: 1.0_f64.to_bits(), n_steps: 0 };
    assert_eq!(
        TVLChanger::new(no_steps, 1.0_f64.to_bits(), vec![]).unwrap_err(),
        ConfigError::NoSteps
    );
    let drift = ProcessParameters { mu: f64::NAN.to_bits(), sigma: 0, t_n: 0, n_steps: 1 };
    assert_eq!(
        TVLChanger::new(drift, 1.0_f64.to_bits(), vec![0]).unwrap_err(),
        ConfigError::NonFiniteDrift
    );
    let volatility =
        ProcessParameters { mu: 0, sigma: f64::INFINITY.to_bits(), t_n: 0, n_steps: 1 };
    assert_eq!(
        TVLChanger::new(volatility, 1.0_f64.to_bits(), vec![0]).unwrap_err(),
        ConfigError::NonFiniteVolatility
    );
    let horizon =
        ProcessParameters { mu: 0, sigma: 0, t_n: f64::NEG_INFINITY.to_bits(), n_steps: 1 };
    assert_eq!(
        TVLChanger::new(horizon, 1.0_f64.to_bits(), vec![0]).unwrap_err(),
        ConfigError::NonFiniteHorizon
    );
}

#[test]
fn initial_value_needs_a_wad_amount() {
    for initial in [f64::NAN, f64::INFINITY, f64::NEG_INFINITY, 1e30, -1e30] {
        assert_eq!(
            TVLChanger::new(parameters(1), initial.to_bits(), vec![0]).unwrap_err(),
            ConfigError::InitialValueOutOfRange
        );
    }
}

#[test]
fn path_needs_one_sample_per_step() {
    let one = 1.0_f64.to_bits();
    assert_eq!(
        TVLChanger::new(parameters(3), one, vec![one, one]).unwrap_err(),
        ConfigError::WrongSampleCount
    );
    assert_eq!(
        TVLChanger::new(parameters(3), one, vec![one, one, one, one]).unwrap_err(),
        ConfigError::WrongSampleCount
    );
    assert_eq!(
        TVLChanger::new(parameters(1), one, vec![]).unwrap_err(),
        ConfigError::WrongSampleCount
    );
    assert!(TVLChanger::new(parameters(3), one, vec![one, one, one]).is_ok());
}

#[test]
fn first_sample_without_an_amount_is_named() {
    let one = 1.0_f64.to_bits();
    let nan = f64::NAN.to_bits();
    let huge = 1e300_f64.to_bits();
    assert_eq!(
        TVLChanger::new(parameters(3), one, vec![nan, one, one]).unwrap_err(),
        ConfigError::SampleOutOfRange(0)
    );
    assert_eq!(
        TVLChanger::new(parameters(3), one, vec![one, one, huge]).unwrap_err(),
        ConfigError::SampleOutOfRange(2)
    );
    assert_eq!(
        TVLChanger::new(parameters(4), one, vec![one, huge, nan, one]).unwrap_err(),
        ConfigError::SampleOutOfRange(1)
    );
}

#[test]
fn faults_are_named_in_order() {
    let nan = f64::NAN.to_bits();
    let bad = ProcessParameters { mu: nan, sigma: nan, t_n: nan, n_steps: 2 };
    assert_eq!(TVLChanger::new(bad, nan, vec![nan]).unwrap_err(), ConfigError::NonFiniteDrift);
    assert_eq!(
        TVLChanger::new(parameters(2), nan, vec![nan]).unwrap_err(),
        ConfigError::InitialValueOutOfRange
    );
    assert_eq!(
        TVLChanger::new(parameters(2), 0, vec![nan]).unwrap_err(),
        ConfigError::WrongSampleCount
    );
    assert_eq!(
        TVLChanger::new(parameters(2), 0, vec![0, nan]).unwrap_err(),
        ConfigError::SampleOutOfRange(1)
    );
}

#[test]
fn a_rise_asks_for_an_inflow_of_the_difference() {
    let mut a = agent(1.0, &[1.5]);
    assert_eq!(a.apply_next_change(), Ok(Some(Request::Inflow(500_000_000_000_000_000))));
    assert_eq!(a.phase(), Phase::AwaitingInflow);
    assert_eq!(a.last_tvl(), WAD);
    assert_eq!(a.index(), 1);
    assert_eq!(a.resolve(Event::Confirmed), Ok(None));
    assert_eq!(a.last_tvl(), 1_500_000_000_000_000_000);
    assert_eq!(a.phase(), Phase::Idle);
    assert!(a.exceed_events().is_empty());
}

#[test]
fn a_fall_asks_for_an_outflow_of_the_difference() {
    let mut a = agent(1.0, &[0.25]);
    assert_eq!(a.apply_next_change(), Ok(Some(Request::Outflow(750_000_000_000_000_000))));
    assert_eq!(a.phase(), Phase::AwaitingOutflow);
    assert_eq!(a.last_tvl(), WAD);
    assert_eq!(a.resolve(Event::Confirmed), Ok(None));
    assert_eq!(a.last_tvl(), 250_000_000_000_000_000);
    assert_eq!(a.phase(), Phase::Idle);
    assert!(a.exceed_events().is_empty());
}

#[test]
fn the_difference_is_taken_in_wad() {
    // 0.9 and 0.7 as doubles are 900000000000000022 and 699999999999999955 wad.
    let mut a = agent(0.9, &[0.7, 0.9]);
    assert_eq!(a.apply_next_change(), Ok(Some(Request::Outflow(200_000_000_000_000_067))));
    assert_eq!(a.resolve(Event::Confirmed), Ok(None));
    assert_eq!(a.last_tvl(), 699_999_999_999_999_955);
    assert_eq!(a.apply_next_change(), Ok(Some(Request::Inflow(200_000_000_000_000_067))));
    assert_eq!(a.resolve(Event::Confirmed), Ok(None));
    assert_eq!(a.last_tvl(), 900_000_000_000_000_022);
}

#[test]
fn no_change_asks_for_nothing() {
    let mut a = agent(1.0, &[1.0, 1.0]);
    assert_eq!(a.apply_next_change(), Ok(None));
    assert_eq!(a.phase(), Phase::Idle);
    assert_eq!(a.last_tvl(), WAD);
    assert_eq!(a.index(), 1);
    assert!(a.exceed_events().is_empty());
    assert_eq!(a.apply_next_change(), Ok(None));
    assert_eq!(a.index(), 2);
    assert_eq!(a.last_tvl(), WAD);
}

#[test]
fn a_change_below_one_wad_is_no_change() {
    let mut a = agent(1.0, &[1.0 + f64::EPSILON]);
    // One unit in the last place of 1.0 is 2.2e-16: 222 wad.
    assert_eq!(a.apply_next_change(), Ok(Some(Request::Inflow(222))));
    let mut b = agent(0.0, &[1e-19, -1e-19, 5e-324]);
    assert_eq!(b.apply_next_change(), Ok(None));
    assert_eq!(b.apply_next_change(), Ok(None));
    assert_eq!(b.apply_next_change(), Ok(None));
    assert_eq!(b.last_tvl(), 0);
}

#[test]
fn negative_samples_are_taken_as_zero() {
    let mut a = agent(1.0, &[-5.0, -0.5, -1e-30, 0.0, -0.0]);
    assert_eq!(a.apply_next_change(), Ok(Some(Request::Outflow(WAD as u128))));
    assert_eq!(a.resolve(Event::Confirmed), Ok(None));
    assert_eq!(a.last_tvl(), 0);
    for _ in 0..4 {
        assert_eq!(a.apply_next_change(), Ok(None));
        assert_eq!(a.last_tvl(), 0);
    }
    assert_eq!(a.remaining(), 0);
    assert_eq!(f64::from_bits(a.path()[0]), -5.0);
}

#[test]
fn a_negative_initial_value_is_left_by_an_inflow() {
    let mut a = agent(-1.0, &[2.0, -3.0]);
    assert_eq!(a.last_tvl(), -WAD);
    assert_eq!(a.apply_next_change(), Ok(Some(Request::Inflow(3 * WAD as u128))));
    assert_eq!(a.resolve(Event::Confirmed), Ok(None));
    assert_eq!(a.last_tvl(), 2 * WAD);
    assert_eq!(a.apply_next_change(), Ok(Some(Request::Outflow(2 * WAD as u128))));
    assert_eq!(a.resolve(Event::Confirmed), Ok(None));
    assert_eq!(a.last_tvl(), 0);
}

#[test]
fn a_negative_initial_value_under_a_negative_sample_rises_to_zero() {
    let mut a = agent(-2.5, &[-1.0]);
    assert_eq!(a.apply_next_change(), Ok(Some(Request::Inflow(2_500_000_000_000_000_000))));
    assert_eq!(a.resolve(Event::Confirmed), Ok(None));
    assert_eq!(a.last_tvl(), 0);
}

#[test]
fn the_widest_rise_fits_the_amount() {
    let top = f64::from_bits(0x4422_725d_d1d2_43ab);
    let mut a = agent(-top, &[top]);
    let reach: u128 = 170_141_183_460_469_211_136_000_000_000_000_000_000;
    assert_eq!(a.last_tvl(), -(reach as i128));
    assert_eq!(a.apply_next_change(), Ok(Some(Request::Inflow(2 * reach))));
    assert_eq!(a.resolve(Event::Confirmed), Ok(None));
    assert_eq!(a.last_tvl(), reach as i128);
}

#[test]
fn a_failed_inflow_is_an_error_and_changes_no_value() {
    for event in [
        Event::Failed,
        Event::Reverted(vec![]),
        Event::Reverted(LIMIT.to_vec()),
        Event::Reverted(vec![0x08, 0xc3, 0x79, 0xa0]),
        Event::Timestamp(3),
    ] {
        let mut a = agent(1.0, &[2.0]);
        assert_eq!(a.apply_next_change(), Ok(Some(Request::Inflow(WAD as u128))));
        assert_eq!(a.resolve(event), Err(StepError::InflowFailed));
        assert_eq!(a.last_tvl(), WAD);
        assert_eq!(a.phase(), Phase::Idle);
        assert_eq!(a.index(), 1);
        assert!(a.exceed_events().is_empty());
    }
}

#[test]
fn an_outflow_over_the_limit_is_logged_and_changes_no_value() {
    let mut a = agent(1.0, &[0.25]);
    assert_eq!(a.apply_next_change(), Ok(Some(Request::Outflow(750_000_000_000_000_000))));
    assert_eq!(a.resolve(Event::Reverted(LIMIT.to_vec())), Ok(Some(Request::Timestamp)));
    assert_eq!(a.phase(), Phase::AwaitingTimestamp);
    assert_eq!(a.last_tvl(), WAD);
    assert!(a.exceed_events().is_empty());
    assert_eq!(a.resolve(Event::Timestamp(1234)), Ok(None));
    assert_eq!(a.phase(), Phase::Idle);
    assert_eq!(a.last_tvl(), WAD);
    assert_eq!(a.index(), 1);
    assert_eq!(
        a.exceed_events(),
        &vec![ExceedEvent {
            time: 1234,
            pre_tvl: WAD,
            tvl_change: -750_000_000_000_000_000,
            target_val: 250_000_000_000_000_000,
        }]
    );
}

#[test]
fn a_logged_entry_holds_the_floored_target() {
    let mut a = agent(2.0, &[-4.0]);
    assert_eq!(a.apply_next_change(), Ok(Some(Request::Outflow(2 * WAD as u128))));
    assert_eq!(a.resolve(Event::Reverted(LIMIT.to_vec())), Ok(Some(Request::Timestamp)));
    assert_eq!(a.resolve(Event::Timestamp(u64::MAX)), Ok(None));
    let entry = a.exceed_events()[0];
    assert_eq!(entry.time, u64::MAX);
    assert_eq!(entry.pre_tvl, 2 * WAD);
    assert_eq!(entry.target_val, 0);
    assert_eq!(entry.tvl_change, -2 * WAD);
    assert_eq!(entry.tvl_change, entry.target_val - entry.pre_tvl);
}

#[test]
fn an_outflow_that_fails_otherwise_is_an_error_and_is_not_logged() {
    for event in [
        Event::Failed,
        Event::Reverted(vec![]),
        Event::Reverted(vec![0x5c, 0xe0, 0x81]),
        Event::Reverted(vec![0x08, 0xc3, 0x79, 0xa0, 0, 0, 0, 0]),
        Event::Reverted(vec![0x7a, 0x81, 0xe0, 0x5c]),
        Event::Timestamp(9),
    ] {
        let mut a = agent(1.0, &[0.5, 0.25]);
        assert_eq!(a.apply_next_change(), Ok(Some(Request::Outflow(500_000_000_000_000_000))));
        assert_eq!(a.resolve(event), Err(StepError::OutflowFailed));
        assert!(a.exceed_events().is_empty());
        assert_eq!(a.last_tvl(), WAD);
        assert_eq!(a.phase(), Phase::Idle);
        assert_eq!(a.index(), 1);
    }
}

#[test]
fn a_clock_that_cannot_be_read_is_an_error_and_nothing_is_logged() {
    for event in [Event::Failed, Event::Confirmed, Event::Reverted(LIMIT.to_vec())] {
        let mut a = agent(1.0, &[0.5]);
        assert_eq!(a.apply_next_change(), Ok(Some(Request::Outflow(500_000_000_000_000_000))));
        assert_eq!(a.resolve(Event::Reverted(LIMIT.to_vec())), Ok(Some(Request::Timestamp)));
        assert_eq!(a.resolve(event), Err(StepError::TimestampFailed));
        assert!(a.exceed_events().is_empty());
        assert_eq!(a.last_tvl(), WAD);
        assert_eq!(a.phase(), Phase::Idle);
    }
}

#[test]
fn a_step_cannot_start_while_a_request_is_open() {
    let mut a = agent(1.0, &[2.0, 3.0, 0.5, 0.1]);
    assert_eq!(a.apply_next_change(), Ok(Some(Request::Inflow(WAD as u128))));
    assert_eq!(a.apply_next_change(), Err(StepError::OperationPending));
    assert_eq!(a.index(), 1);
    assert_eq!(a.phase(), Phase::AwaitingInflow);
    assert_eq!(a.resolve(Event::Confirmed), Ok(None));
    assert_eq!(a.apply_next_change(), Ok(Some(Request::Inflow(WAD as u128))));
    assert_eq!(a.resolve(Event::Confirmed), Ok(None));
    assert_eq!(a.apply_next_change(), Ok(Some(Request::Outflow(2_500_000_000_000_000_000))));
    assert_eq!(a.apply_next_change(), Err(StepError::OperationPending));
    assert_eq!(a.phase(), Phase::AwaitingOutflow);
    assert_eq!(a.resolve(Event::Reverted(LIMIT.to_vec())), Ok(Some(Request::Timestamp)));
    assert_eq!(a.apply_next_change(), Err(StepError::OperationPending));
    assert_eq!(a.phase(), Phase::AwaitingTimestamp);
    assert_eq!(a.index(), 3);
    assert_eq!(a.last_tvl(), 3 * WAD);
    assert!(a.exceed_events().is_empty());
}

#[test]
fn an_event_without_a_request_is_refused() {
    for event in [
        Event::Confirmed,
        Event::Failed,
        Event::Reverted(LIMIT.to_vec()),
        Event::Timestamp(1),
    ] {
        let mut a = agent(1.0, &[2.0]);
        assert_eq!(a.resolve(event), Err(StepError::NothingPending));
        assert_eq!(a.index(), 0);
        assert_eq!(a.last_tvl(), WAD);
        assert_eq!(a.phase(), Phase::Idle);
        assert!(a.exceed_events().is_empty());
    }
    let mut a = agent(1.0, &[1.0]);
    assert_eq!(a.apply_next_change(), Ok(None));
    assert_eq!(a.resolve(Event::Confirmed), Err(StepError::NothingPending));
}

#[test]
fn every_step_takes_one_sample() {
    let mut a = agent(1.0, &[2.0, 1.0, 1.0, 0.5, 0.25, 3.0, 0.0]);
    // A confirmed rise.
    assert!(a.apply_next_change().unwrap().is_some());
    assert_eq!(a.index(), 1);
    a.resolve(Event::Confirmed).unwrap();
    assert_eq!(a.index(), 1);
    // A confirmed fall.
    assert!(a.apply_next_change().unwrap().is_some());
    assert_eq!(a.index(), 2);
    a.resolve(Event::Confirmed).unwrap();
    // No change.
    assert!(a.apply_next_change().unwrap().is_none());
    assert_eq!(a.index(), 3);
    // A fall over the limit.
    assert!(a.apply_next_change().unwrap().is_some());
    assert_eq!(a.index(), 4);
    a.resolve(Event::Reverted(LIMIT.to_vec())).unwrap();
    assert_eq!(a.index(), 4);
    a.resolve(Event::Timestamp(40)).unwrap();
    assert_eq!(a.index(), 4);
    // A fall that fails.
    assert!(a.apply_next_change().unwrap().is_some());
    assert_eq!(a.index(), 5);
    a.resolve(Event::Failed).unwrap_err();
    assert_eq!(a.index(), 5);
    // A rise that fails.
    assert!(a.apply_next_change().unwrap().is_some());
    assert_eq!(a.index(), 6);
    a.resolve(Event::Reverted(vec![])).unwrap_err();
    assert_eq!(a.index(), 6);
    // A fall over the limit whose time cannot be read.
    assert!(a.apply_next_change().unwrap().is_some());
    assert_eq!(a.index(), 7);
    a.resolve(Event::Reverted(LIMIT.to_vec())).unwrap();
    a.resolve(Event::Failed).unwrap_err();
    assert_eq!(a.index(), 7);
    assert_eq!(a.remaining(), 0);
    assert_eq!(a.last_tvl(), WAD);
    assert_eq!(a.exceed_events().len(), 1);
}

#[test]
fn a_rejected_step_is_not_tried_again() {
    let mut a = agent(1.0, &[0.5, 0.75]);
    assert_eq!(a.apply_next_change(), Ok(Some(Request::Outflow(500_000_000_000_000_000))));
    assert_eq!(a.resolve(Event::Reverted(LIMIT.to_vec())), Ok(Some(Request::Timestamp)));
    assert_eq!(a.resolve(Event::Timestamp(2)), Ok(None));
    // The next step starts from the value that the limiter still holds.
    assert_eq!(a.apply_next_change(), Ok(Some(Request::Outflow(250_000_000_000_000_000))));
    assert_eq!(a.resolve(Event::Confirmed), Ok(None));
    assert_eq!(a.last_tvl(), 750_000_000_000_000_000);
    assert_eq!(a.exceed_events().len(), 1);
}

#[test]
fn logged_entries_stay_as_they_are() {
    let mut a = agent(4.0, &[3.0, 2.0, 5.0, 1.0]);
    a.apply_next_change().unwrap();
    a.resolve(Event::Reverted(LIMIT.to_vec())).unwrap();
    a.resolve(Event::Timestamp(10)).unwrap();
    let first = a.exceed_events()[0];
    a.apply_next_change().unwrap();
    a.resolve(Event::Reverted(LIMIT.to_vec())).unwrap();
    a.resolve(Event::Timestamp(11)).unwrap();
    a.apply_next_change().unwrap();
    a.resolve(Event::Confirmed).unwrap();
    a.apply_next_change().unwrap();
    a.resolve(Event::Failed).unwrap_err();
    assert_eq!(a.exceed_events().len(), 2);
    assert_eq!(a.exceed_events()[0], first);
    assert_eq!(
        a.exceed_events()[1],
        ExceedEvent { time: 11, pre_tvl: 4 * WAD, tvl_change: -2 * WAD, target_val: 2 * WAD }
    );
    assert_eq!(a.last_tvl(), 5 * WAD);
}

#[test]
fn only_the_limiters_own_error_is_a_rejection_by_the_limit() {
    assert_eq!(classify(&Event::Confirmed), Outcome::Applied);
    assert_eq!(classify(&Event::Reverted(LIMIT.to_vec())), Outcome::RejectedByLimit);
    assert_eq!(
        classify(&Event::Reverted(vec![0x5c, 0xe0, 0x81, 0x7a, 1, 2, 3])),
        Outcome::RejectedByLimit
    );
    assert_eq!(classify(&Event::Reverted(vec![])), Outcome::OtherFailure);
    assert_eq!(classify(&Event::Reverted(vec![0x5c, 0xe0, 0x81])), Outcome::OtherFailure);
    assert_eq!(classify(&Event::Reverted(vec![0x08, 0xc3, 0x79, 0xa0])), Outcome::OtherFailure);
    assert_eq!(classify(&Event::Failed), Outcome::OtherFailure);
    assert_eq!(classify(&Event::Timestamp(0)), Outcome::OtherFailure);
}
