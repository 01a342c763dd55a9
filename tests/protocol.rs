use dht_gpiod::{read_ack_pulses, SimCall, Gpiod, GpiodError, SensorConfig, SimulatedChip};

fn device() -> Gpiod<SimulatedChip> {
    Gpiod::new(SimulatedChip::new("dummy_chip".to_string()))
}

fn sensor_config() -> SensorConfig {
    SensorConfig {
        offset: 21,
        wake_low_us: 1000,
        release_high_us: 40,
        timeout_us: 100,
        max_polls: 1_000_000,
    }
}

/// Handles acquired and handles released in `log`, each list in call order.
fn acquired_and_released(log: &[SimCall]) -> (Vec<usize>, Vec<usize>) {
    let mut acquired = Vec::new();
    let mut released = Vec::new();
    for call in log {
        match *call {
            SimCall::ChipOpen(h)
            | SimCall::ChipGetInfo(_, h)
            | SimCall::SettingsNew(h)
            | SimCall::ConfigNew(h)
            | SimCall::RequestLines(_, _, h) => {
                if h != 0 {
                    acquired.push(h);
                }
            }
            SimCall::ChipClose(h)
            | SimCall::InfoFree(h)
            | SimCall::SettingsFree(h)
            | SimCall::ConfigFree(h)
            | SimCall::RequestRelease(h) => released.push(h),
            _ => {}
        }
    }
    acquired.sort();
    released.sort();
    (acquired, released)
}

#[test]
fn scenario_full_exchange_releases_everything_once() {
    let mut gpiod = device();
    gpiod.backend.toggle_at = 1040;
    gpiod.backend.period_us = 80;
    let pulses = read_ack_pulses(&mut gpiod, "/dev/gpiochip0", &sensor_config()).unwrap();
    assert_eq!(pulses.chip_name, "dummy_chip");
    assert_eq!(pulses.low_us, 80);
    assert_eq!(pulses.high_us, 79);
    let (acquired, released) = acquired_and_released(&gpiod.backend.log);
    assert_eq!(acquired, vec![1, 2, 3, 4, 5, 6, 7]);
    assert_eq!(released, acquired);
    let log = &gpiod.backend.log;
    let final_cleanup = log
        .iter()
        .position(|c| *c == SimCall::ConfigFree(7))
        .unwrap();
    assert_eq!(
        log[final_cleanup..final_cleanup + 4],
        [
            SimCall::ConfigFree(7),
            SimCall::SettingsFree(6),
            SimCall::InfoFree(2),
            SimCall::ChipClose(1),
        ]
    );
    assert_eq!(log.last(), Some(&SimCall::RequestRelease(5)));
}

#[test]
fn scenario_rejected_path_needs_no_cleanup() {
    let mut gpiod = device();
    gpiod.backend.open_ok = false;
    let result = read_ack_pulses(&mut gpiod, "/dev/gpiochip9", &sensor_config());
    assert_eq!(result.unwrap_err(), GpiodError::OpenChip);
    assert_eq!(gpiod.backend.log, vec![SimCall::ChipOpen(0)]);
}

#[test]
fn scenario_settings_failure_releases_info_then_chip() {
    let mut gpiod = device();
    gpiod.backend.settings_ok = false;
    let result = read_ack_pulses(&mut gpiod, "/dev/gpiochip0", &sensor_config());
    assert_eq!(result.unwrap_err(), GpiodError::CreateSettings);
    assert_eq!(
        gpiod.backend.log,
        vec![
            SimCall::ChipOpen(1),
            SimCall::ChipGetInfo(1, 2),
            SimCall::ChipInfoGetName(2, true),
            SimCall::SettingsNew(0),
            SimCall::InfoFree(2),
            SimCall::ChipClose(1),
        ]
    );
}

#[test]
fn scenario_silent_sensor_times_out() {
    let mut gpiod = device();
    let result = read_ack_pulses(&mut gpiod, "/dev/gpiochip0", &sensor_config());
    assert_eq!(result.unwrap_err(), GpiodError::Timeout);
    let (acquired, released) = acquired_and_released(&gpiod.backend.log);
    assert_eq!(released, acquired);
    assert_eq!(gpiod.backend.log.last(), Some(&SimCall::RequestRelease(5)));
}

#[test]
fn failed_request_releases_all_four() {
    let mut gpiod = device();
    gpiod.backend.request_ok = false;
    let result = read_ack_pulses(&mut gpiod, "/dev/gpiochip0", &sensor_config());
    assert_eq!(result.unwrap_err(), GpiodError::LineRequest);
    let log = &gpiod.backend.log;
    assert_eq!(
        log[log.len() - 4..],
        [
            SimCall::ConfigFree(4),
            SimCall::SettingsFree(3),
            SimCall::InfoFree(2),
            SimCall::ChipClose(1),
        ]
    );
    let (acquired, released) = acquired_and_released(log);
    assert_eq!(released, acquired);
}

#[test]
fn failed_bias_frees_the_settings_object() {
    let mut gpiod = device();
    gpiod.backend.bias_ok = false;
    let result = read_ack_pulses(&mut gpiod, "/dev/gpiochip0", &sensor_config());
    assert_eq!(result.unwrap_err(), GpiodError::SetBias(dht_gpiod::Bias::PullUp));
    let (acquired, released) = acquired_and_released(&gpiod.backend.log);
    assert_eq!(acquired, vec![1, 2, 3]);
    assert_eq!(released, acquired);
}

#[test]
fn failed_reconfigure_still_releases_everything() {
    let mut gpiod = device();
    gpiod.backend.reconfigure_ok = false;
    let result = read_ack_pulses(&mut gpiod, "/dev/gpiochip0", &sensor_config());
    assert_eq!(result.unwrap_err(), GpiodError::LineRequestSetValue);
    let (acquired, released) = acquired_and_released(&gpiod.backend.log);
    assert_eq!(released, acquired);
    assert_eq!(gpiod.backend.log.last(), Some(&SimCall::RequestRelease(5)));
}
