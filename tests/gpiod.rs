use dht_gpiod::{
    cleanup, SimCall, Bias, ChipHandle, ChipInfo, Direction, Gpiod, GpiodError, LineConfig,
    LineRequest, LineSettings, SimulatedChip,
};

fn device() -> Gpiod<SimulatedChip> {
    Gpiod::new(SimulatedChip::new("dummy_chip".to_string()))
}

fn count_calls(log: &[SimCall], pred: fn(&SimCall) -> bool) -> usize {
    log.iter().filter(|c| pred(c)).count()
}

#[test]
fn test_gpio_chip_open() {
    for path in ["dummy", ""] {
        let mut gpiod = device();
        let chip = gpiod.chip(path);
        if path.is_empty() {
            assert!(chip.is_err());
        } else {
            assert!(chip.is_ok());
        }
    }
}

#[test]
fn test_gpio_get_chip_info() {
    for (chip, desired) in [(0usize, false), (1, false), (1, true)] {
        let mut gpiod = device();
        gpiod.backend.info_ok = desired;
        let info = gpiod.info(&ChipHandle { raw: chip });
        assert_eq!(info.is_err(), !desired);
    }
}

#[test]
fn test_gpio_get_chip_name() {
    for (info, desired) in [(0usize, false), (1, false), (1, true)] {
        let mut gpiod = device();
        gpiod.backend.name_ok = desired;
        let name = gpiod.name(&ChipInfo { raw: info });
        assert_eq!(name.is_err(), !desired);
    }
}

#[test]
fn test_gpio_create_settings() {
    for desired in [false, true] {
        let mut gpiod = device();
        gpiod.backend.settings_ok = desired;
        let settings = gpiod.settings();
        assert_eq!(settings.is_err(), !desired);
    }
}

#[test]
fn test_gpio_set_drive() {
    for (settings, desired) in [(0usize, false), (1, false), (1, true)] {
        let mut gpiod = device();
        gpiod.backend.bias_ok = desired;
        let result = gpiod.settings_set_bias(&LineSettings { raw: settings }, Bias::PullUp);
        assert_eq!(result.is_err(), !desired);
    }
}

#[test]
fn test_gpio_set_direction() {
    for (settings, desired) in [(0usize, false), (1, false), (1, true)] {
        let mut gpiod = device();
        gpiod.backend.direction_ok = desired;
        let result = gpiod.settings_set_direction(&LineSettings { raw: settings }, Direction::AsIs);
        assert_eq!(result.is_err(), !desired);
    }
}

#[test]
fn test_gpio_create_config() {
    for desired in [false, true] {
        let mut gpiod = device();
        gpiod.backend.config_ok = desired;
        let config = gpiod.config();
        assert_eq!(config.is_err(), !desired);
    }
}

#[test]
fn test_gpio_add_settings() {
    for (config, settings, desired) in [(0usize, 0usize, false), (1, 1, false), (1, 1, true)] {
        let mut gpiod = device();
        gpiod.backend.add_settings_ok = desired;
        let result = gpiod.config_add_settings(
            &LineConfig { raw: config },
            &LineSettings { raw: settings },
            &[21],
        );
        assert_eq!(result.is_err(), !desired);
    }
}

#[test]
fn test_gpio_chip_request_lines() {
    for (chip, line_cfg, desired) in [(0usize, 0usize, false), (1, 1, false), (1, 1, true)] {
        let mut gpiod = device();
        gpiod.backend.request_ok = desired;
        let result =
            gpiod.chip_request_lines(&ChipHandle { raw: chip }, &LineConfig { raw: line_cfg });
        assert_eq!(result.is_err(), !desired);
    }
}

#[test]
fn test_gpio_line_request_set_value() {
    for (request, offset, value, desired) in
        [(0usize, 0u32, true, false), (1, 0, true, false), (1, 0, true, true)]
    {
        let mut gpiod = device();
        gpiod.backend.set_value_ok = desired;
        let result = gpiod.line_request_set_value(&LineRequest { raw: request }, offset, value);
        assert_eq!(result.is_err(), !desired);
    }
}

#[test]
fn test_gpio_line_request_reconfigure_lines() {
    for (request, config, desired) in [(0usize, 0usize, false), (1, 1, false), (1, 1, true)] {
        let mut gpiod = device();
        gpiod.backend.reconfigure_ok = desired;
        let result = gpiod
            .line_request_reconfigure_lines(&LineRequest { raw: request }, &LineConfig { raw: config });
        assert_eq!(result.is_err(), !desired);
    }
}

#[test]
fn test_gpio_line_request_get_value() {
    for (request, offset, desired) in [(0usize, 0u32, false), (1, 0, false), (1, 0, true)] {
        let mut gpiod = device();
        gpiod.backend.get_value_ok = desired;
        let result = gpiod.line_request_get_value(&LineRequest { raw: request }, offset);
        assert_eq!(result.is_err(), !desired);
        if desired {
            assert_eq!(result.unwrap(), true);
        }
    }
}

#[test]
fn test_cleanup_invokes_all_free_functions() {
    let mut gpiod = device();
    cleanup(
        &mut gpiod,
        Some(ChipHandle { raw: 1 }),
        Some(ChipInfo { raw: 1 }),
        Some(LineSettings { raw: 1 }),
        Some(LineConfig { raw: 1 }),
    );
    let log = &gpiod.backend.log;
    assert_eq!(count_calls(log, |c| matches!(c, SimCall::ConfigFree(_))), 1);
    assert_eq!(count_calls(log, |c| matches!(c, SimCall::SettingsFree(_))), 1);
    assert_eq!(count_calls(log, |c| matches!(c, SimCall::InfoFree(_))), 1);
    assert_eq!(count_calls(log, |c| matches!(c, SimCall::ChipClose(_))), 1);
}

#[test]
fn test_cleanup_handles_none() {
    let mut gpiod = device();
    cleanup(&mut gpiod, None, None, None, None);
    let log = &gpiod.backend.log;
    assert_eq!(count_calls(log, |c| matches!(c, SimCall::ConfigFree(_))), 0);
    assert_eq!(count_calls(log, |c| matches!(c, SimCall::SettingsFree(_))), 0);
    assert_eq!(count_calls(log, |c| matches!(c, SimCall::InfoFree(_))), 0);
    assert_eq!(count_calls(log, |c| matches!(c, SimCall::ChipClose(_))), 0);
}

#[test]
fn null_handles_are_refused_before_any_call() {
    let mut gpiod = device();
    assert_eq!(gpiod.info(&ChipHandle { raw: 0 }).unwrap_err(), GpiodError::NullPtr);
    assert_eq!(gpiod.name(&ChipInfo { raw: 0 }).unwrap_err(), GpiodError::NullPtr);
    let null_settings = LineSettings { raw: 0 };
    assert_eq!(gpiod.settings_set_bias(&null_settings, Bias::PullUp), Err(GpiodError::NullPtr));
    assert_eq!(
        gpiod.settings_set_direction(&null_settings, Direction::Output),
        Err(GpiodError::NullPtr)
    );
    assert_eq!(
        gpiod.config_add_settings(&LineConfig { raw: 3 }, &null_settings, &[21]),
        Err(GpiodError::NullPtr)
    );
    assert_eq!(
        gpiod.config_add_settings(&LineConfig { raw: 0 }, &LineSettings { raw: 3 }, &[21]),
        Err(GpiodError::NullPtr)
    );
    assert_eq!(
        gpiod.chip_request_lines(&ChipHandle { raw: 1 }, &LineConfig { raw: 0 }).unwrap_err(),
        GpiodError::NullPtr
    );
    let null_request = LineRequest { raw: 0 };
    assert_eq!(gpiod.line_request_set_value(&null_request, 21, true), Err(GpiodError::NullPtr));
    assert_eq!(
        gpiod.line_request_reconfigure_lines(&LineRequest { raw: 5 }, &LineConfig { raw: 0 }),
        Err(GpiodError::NullPtr)
    );
    assert_eq!(gpiod.line_request_get_value(&null_request, 21), Err(GpiodError::NullPtr));
    assert!(gpiod.backend.log.is_empty());
}

#[test]
fn failed_calls_give_their_error_and_nothing_else() {
    let mut gpiod = device();
    gpiod.backend.open_ok = false;
    gpiod.backend.info_ok = false;
    gpiod.backend.name_ok = false;
    gpiod.backend.settings_ok = false;
    gpiod.backend.bias_ok = false;
    gpiod.backend.direction_ok = false;
    gpiod.backend.config_ok = false;
    gpiod.backend.add_settings_ok = false;
    gpiod.backend.request_ok = false;
    gpiod.backend.set_value_ok = false;
    gpiod.backend.reconfigure_ok = false;
    gpiod.backend.get_value_ok = false;
    let chip = ChipHandle { raw: 7 };
    let settings = LineSettings { raw: 8 };
    let config = LineConfig { raw: 9 };
    let request = LineRequest { raw: 10 };
    assert_eq!(gpiod.chip("/dev/gpiochip0").unwrap_err(), GpiodError::OpenChip);
    assert_eq!(gpiod.info(&chip).unwrap_err(), GpiodError::GetChipInfo);
    assert_eq!(gpiod.name(&ChipInfo { raw: 4 }).unwrap_err(), GpiodError::GetChipName);
    assert_eq!(gpiod.settings().unwrap_err(), GpiodError::CreateSettings);
    assert_eq!(
        gpiod.settings_set_bias(&settings, Bias::PullDown),
        Err(GpiodError::SetBias(Bias::PullDown))
    );
    assert_eq!(
        gpiod.settings_set_direction(&settings, Direction::Input),
        Err(GpiodError::SetDirection(Direction::Input))
    );
    assert_eq!(gpiod.config().unwrap_err(), GpiodError::CreateConfig);
    assert_eq!(gpiod.config_add_settings(&config, &settings, &[21, 22]), Err(GpiodError::CreateConfig));
    assert_eq!(gpiod.chip_request_lines(&chip, &config).unwrap_err(), GpiodError::LineRequest);
    assert_eq!(gpiod.line_request_set_value(&request, 21, false), Err(GpiodError::LineRequestSetValue));
    assert_eq!(
        gpiod.line_request_reconfigure_lines(&request, &config),
        Err(GpiodError::LineRequestSetValue)
    );
    assert_eq!(gpiod.line_request_get_value(&request, 21), Err(GpiodError::LineRequestGetValue));
    assert_eq!(
        gpiod.backend.log,
        vec![
            SimCall::ChipOpen(0),
            SimCall::ChipGetInfo(7, 0),
            SimCall::ChipInfoGetName(4, false),
            SimCall::SettingsNew(0),
            SimCall::SettingsSetBias(8, Bias::PullDown, -1),
            SimCall::SettingsSetDirection(8, Direction::Input, -1),
            SimCall::ConfigNew(0),
            SimCall::ConfigAddSettings(9, 8, -1),
            SimCall::RequestLines(7, 9, 0),
            SimCall::RequestSetValue(10, 21, false, -1),
            SimCall::RequestReconfigure(10, 9, -1),
            SimCall::RequestGetValue(10, 21, -1),
        ]
    );
}

#[test]
fn successful_calls_hand_out_the_backend_handles() {
    let mut gpiod = device();
    let chip = gpiod.chip("/dev/gpiochip0").unwrap();
    let info = gpiod.info(&chip).unwrap();
    let settings = gpiod.settings().unwrap();
    let config = gpiod.config().unwrap();
    let request = gpiod.chip_request_lines(&chip, &config).unwrap();
    assert_eq!((chip.raw, info.raw, settings.raw, config.raw, request.raw), (1, 2, 3, 4, 5));
    assert_eq!(gpiod.name(&info).unwrap(), "dummy_chip");
}

#[test]
fn cleanup_releases_in_reverse_order_of_acquisition() {
    let mut gpiod = device();
    cleanup(
        &mut gpiod,
        Some(ChipHandle { raw: 1 }),
        Some(ChipInfo { raw: 2 }),
        Some(LineSettings { raw: 3 }),
        Some(LineConfig { raw: 4 }),
    );
    assert_eq!(
        gpiod.backend.log,
        vec![
            SimCall::ConfigFree(4),
            SimCall::SettingsFree(3),
            SimCall::InfoFree(2),
            SimCall::ChipClose(1),
        ]
    );
}

#[test]
fn cleanup_releases_only_present_resources_in_order() {
    let mut gpiod = device();
    cleanup(&mut gpiod, Some(ChipHandle { raw: 1 }), None, Some(LineSettings { raw: 3 }), None);
    assert_eq!(gpiod.backend.log, vec![SimCall::SettingsFree(3), SimCall::ChipClose(1)]);
    let mut gpiod = device();
    cleanup(&mut gpiod, None, Some(ChipInfo { raw: 2 }), None, Some(LineConfig { raw: 4 }));
    assert_eq!(gpiod.backend.log, vec![SimCall::ConfigFree(4), SimCall::InfoFree(2)]);
}

#[test]
fn repeated_reads_return_the_same_value() {
    let mut gpiod = device();
    let request = LineRequest { raw: 5 };
    let first = gpiod.line_request_get_value(&request, 21).unwrap();
    let second = gpiod.line_request_get_value(&request, 21).unwrap();
    let third = gpiod.line_request_get_value(&request, 21).unwrap();
    assert_eq!(first, second);
    assert_eq!(second, third);
    gpiod.backend.level = false;
    assert_eq!(gpiod.line_request_get_value(&request, 21), Ok(false));
    assert_eq!(gpiod.line_request_get_value(&request, 21), Ok(false));
}
