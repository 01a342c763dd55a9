use dht_gpiod::{
    expect_pulse, judge_poll, SimCall, Gpiod, GpiodError, LineRequest, PollOutcome,
    PulseConfig, SimulatedChip,
};

fn device() -> Gpiod<SimulatedChip> {
    Gpiod::new(SimulatedChip::new("dummy_chip".to_string()))
}

fn pulse_config() -> PulseConfig {
    PulseConfig { offset: 21, timeout_us: 100, max_polls: 1_000_000 }
}

#[test]
fn judge_poll_decides_each_sample() {
    assert_eq!(judge_poll(true, true, 0, 100), PollOutcome::Pending);
    assert_eq!(judge_poll(true, true, 100, 100), PollOutcome::Pending);
    assert_eq!(judge_poll(true, true, 101, 100), PollOutcome::TimedOut);
    assert_eq!(judge_poll(false, true, 42, 100), PollOutcome::Pulse(42));
    assert_eq!(judge_poll(true, false, 250, 100), PollOutcome::TimedOut);
    assert_eq!(judge_poll(true, false, 100, 100), PollOutcome::Pulse(100));
    assert_eq!(judge_poll(false, false, 7, 100), PollOutcome::Pending);
}

#[test]
fn pulse_times_out_when_the_line_never_flips() {
    let mut gpiod = device();
    let request = LineRequest { raw: 5 };
    assert_eq!(expect_pulse(&mut gpiod, true, &request, pulse_config()), Err(GpiodError::Timeout));
    // One clock reading to start, then a read and a reading for each poll up
    // to the first one past the deadline.
    assert_eq!(gpiod.backend.log.len(), 1 + 2 * 101);
    assert_eq!(gpiod.backend.log[0], SimCall::Clock(0));
    assert_eq!(gpiod.backend.log[202], SimCall::Clock(101));
}

#[test]
fn pulse_width_is_measured_from_the_start() {
    let mut gpiod = device();
    gpiod.backend.toggle_at = 30;
    let request = LineRequest { raw: 5 };
    assert_eq!(expect_pulse(&mut gpiod, true, &request, pulse_config()), Ok(30));
    assert_eq!(gpiod.backend.log.last(), Some(&SimCall::Clock(30)));
}

#[test]
fn pulse_that_already_ended_is_reported_at_the_first_poll() {
    let mut gpiod = device();
    let request = LineRequest { raw: 5 };
    assert_eq!(expect_pulse(&mut gpiod, false, &request, pulse_config()), Ok(1));
    assert_eq!(
        gpiod.backend.log,
        vec![
            SimCall::Clock(0),
            SimCall::RequestGetValue(5, 21, 1),
            SimCall::Clock(1),
        ]
    );
}

#[test]
fn pulse_gives_up_after_the_poll_budget() {
    let mut gpiod = device();
    let request = LineRequest { raw: 5 };
    let config = PulseConfig { offset: 21, timeout_us: 100, max_polls: 5 };
    assert_eq!(expect_pulse(&mut gpiod, true, &request, config), Err(GpiodError::Timeout));
    assert_eq!(gpiod.backend.log.len(), 11);
    let config = PulseConfig { offset: 21, timeout_us: 100, max_polls: 0 };
    let mut gpiod = device();
    assert_eq!(expect_pulse(&mut gpiod, true, &request, config), Err(GpiodError::Timeout));
    assert_eq!(gpiod.backend.log, vec![SimCall::Clock(0)]);
}

#[test]
fn pulse_stops_on_a_failed_read() {
    let mut gpiod = device();
    gpiod.backend.get_value_ok = false;
    let request = LineRequest { raw: 5 };
    assert_eq!(
        expect_pulse(&mut gpiod, true, &request, pulse_config()),
        Err(GpiodError::LineRequestGetValue)
    );
    assert_eq!(
        gpiod.backend.log,
        vec![SimCall::Clock(0), SimCall::RequestGetValue(5, 21, -1)]
    );
}

#[test]
fn pulse_refuses_a_null_request() {
    let mut gpiod = device();
    let request = LineRequest { raw: 0 };
    assert_eq!(expect_pulse(&mut gpiod, true, &request, pulse_config()), Err(GpiodError::NullPtr));
    assert!(gpiod.backend.log.is_empty());
}

#[test]
fn change_after_the_deadline_is_a_timeout() {
    let mut gpiod = device();
    gpiod.backend.toggle_at = 150;
    let request = LineRequest { raw: 5 };
    assert_eq!(expect_pulse(&mut gpiod, true, &request, pulse_config()), Err(GpiodError::Timeout));
    let mut gpiod = device();
    gpiod.backend.toggle_at = 100;
    assert_eq!(expect_pulse(&mut gpiod, true, &request, pulse_config()), Ok(100));
}
