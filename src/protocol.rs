use vstd::prelude::*;
use crate::backend::{BackendCall, IGpiod};
use crate::cleanup::{cleanup, release_calls};
use crate::error::{Bias, Direction, GpiodError};
use crate::gpiod::{valid_offsets, Gpiod};
use crate::handles::{ChipHandle, ChipInfo, LineConfig, LineRequest, LineSettings};
use crate::pulse::{expect_pulse, pulse_trace, PulseConfig};
use crate::ledger::{held_changed_by, lemma_held_step};

verus! {

/// What the backend answered to the calls of [`prepare_line`], in order:
/// the settings handle, the statuses of setting direction and bias, the config
/// handle and the status of attaching the settings. Answers to calls that were
/// not made are of no account.
pub struct PrepAnswers {
    pub settings: usize,
    pub direction: i32,
    pub bias: i32,
    pub config: usize,
    pub add: i32,
}

pub open spec fn settings_of(raw: usize) -> Option<LineSettings> {
    Some(LineSettings { raw })
}

pub open spec fn config_of(raw: usize) -> Option<LineConfig> {
    Some(LineConfig { raw })
}

pub open spec fn chip_of(raw: usize) -> Option<ChipHandle> {
    Some(ChipHandle { raw })
}

pub open spec fn info_of(raw: usize) -> Option<ChipInfo> {
    Some(ChipInfo { raw })
}

/// Whether the bias step, when there is one, failed.
pub open spec fn bias_failed(bias: Option<Bias>, a: PrepAnswers) -> bool {
    bias is Some && a.bias != 0
}

/// The calls that [`prepare_line`] makes when the backend answers `a`: create
/// the settings, set the direction and then the bias (if one is given), create
/// the config and attach the settings to `offset`; on the first failure, free
/// what was created and stop.
pub open spec fn prepare_calls(
    offset: u32,
    direction: Direction,
    bias: Option<Bias>,
    a: PrepAnswers,
) -> Seq<BackendCall> {
    let created = seq![BackendCall::SettingsNew(a.settings)];
    let directed = created.push(BackendCall::SettingsSetDirection(a.settings, direction, a.direction));
    let biased = match bias {
        Some(b) => directed.push(BackendCall::SettingsSetBias(a.settings, b, a.bias)),
        None => directed,
    };
    let configured = biased.push(BackendCall::ConfigNew(a.config));
    let attached = configured.push(
        BackendCall::ConfigAddSettings(a.config, seq![offset], a.settings, a.add),
    );
    let free_settings = release_calls(None, None, settings_of(a.settings), None);
    if a.settings == 0 {
        created
    } else if a.direction != 0 {
        directed + free_settings
    } else if bias_failed(bias, a) {
        biased + free_settings
    } else if a.config == 0 {
        configured + free_settings
    } else if a.add != 0 {
        attached + release_calls(None, None, settings_of(a.settings), config_of(a.config))
    } else {
        attached
    }
}

/// What [`prepare_line`] returns, as raw handles, when the backend answers `a`.
pub open spec fn prepare_result(
    direction: Direction,
    bias: Option<Bias>,
    a: PrepAnswers,
) -> Result<(usize, usize), GpiodError> {
    if a.settings == 0 {
        Err(GpiodError::CreateSettings)
    } else if a.direction != 0 {
        Err(GpiodError::SetDirection(direction))
    } else if bias_failed(bias, a) {
        Err(GpiodError::SetBias(bias->Some_0))
    } else if a.config == 0 || a.add != 0 {
        Err(GpiodError::CreateConfig)
    } else {
        Ok((a.settings, a.config))
    }
}

/// A pair of handles seen as their raw values.
pub open spec fn raw_pair(r: Result<(LineSettings, LineConfig), GpiodError>) -> Result<
    (usize, usize),
    GpiodError,
> {
    match r {
        Ok((s, c)) => Ok((s.raw, c.raw)),
        Err(e) => Err(e),
    }
}

/// Creates a settings object with `direction` (and `bias`, if given), and a
/// config object that applies it to `offset`. On failure whatever was created
/// is freed again.
pub fn prepare_line<B: IGpiod>(
    gpiod: &mut Gpiod<B>,
    offset: u32,
    direction: Direction,
    bias: Option<Bias>,
) -> (r: Result<(LineSettings, LineConfig), GpiodError>)
    ensures
        exists|a: PrepAnswers|
            final(gpiod).backend.calls() == old(gpiod).backend.calls() + #[trigger] prepare_calls(
                offset,
                direction,
                bias,
                a,
            ) && prepare_result(direction, bias, a) == raw_pair(r),
        r is Ok ==> held_changed_by(
            old(gpiod).backend.calls(),
            final(gpiod).backend.calls(),
            0,
            0,
            1,
            1,
            0,
        ),
        r is Err ==> held_changed_by(
            old(gpiod).backend.calls(),
            final(gpiod).backend.calls(),
            0,
            0,
            0,
            0,
            0,
        ),
{
    proof {
        lemma_held_step();
    }
    let ghost start = gpiod.backend.calls();
    let settings = match gpiod.settings() {
        Ok(s) => s,
        Err(e) => {
            let ghost a = PrepAnswers { settings: 0, direction: 0, bias: 0, config: 0, add: 0 };
            assert(gpiod.backend.calls() =~= start + prepare_calls(offset, direction, bias, a));
            return Err(e);
        },
    };
    let ghost s = settings.raw;
    if let Err(e) = gpiod.settings_set_direction(&settings, direction) {
        let ghost st = gpiod.backend.calls().last()->SettingsSetDirection_2;
        let ghost a = PrepAnswers { settings: s, direction: st, bias: 0, config: 0, add: 0 };
        cleanup(gpiod, None, None, Some(settings), None);
        assert(gpiod.backend.calls() =~= start + prepare_calls(offset, direction, bias, a));
        return Err(e);
    }
    let ghost bias_status: i32 = 0;
    if let Some(b) = bias {
        let r = gpiod.settings_set_bias(&settings, b);
        proof {
            bias_status = gpiod.backend.calls().last()->SettingsSetBias_2;
        }
        if let Err(e) = r {
            let ghost a = PrepAnswers { settings: s, direction: 0, bias: bias_status, config: 0, add: 0 };
            cleanup(gpiod, None, None, Some(settings), None);
            assert(gpiod.backend.calls() =~= start + prepare_calls(offset, direction, bias, a));
            return Err(e);
        }
    }
    let config = match gpiod.config() {
        Ok(c) => c,
        Err(e) => {
            let ghost a = PrepAnswers { settings: s, direction: 0, bias: bias_status, config: 0, add: 0 };
            cleanup(gpiod, None, None, Some(settings), None);
            assert(gpiod.backend.calls() =~= start + prepare_calls(offset, direction, bias, a));
            return Err(e);
        },
    };
    let ghost c = config.raw;
    let offsets: [u32; 1] = [offset];
    assert(offsets@ =~= seq![offset]);
    if let Err(e) = gpiod.config_add_settings(&config, &settings, &offsets) {
        let ghost st = gpiod.backend.calls().last()->ConfigAddSettings_3;
        let ghost a = PrepAnswers { settings: s, direction: 0, bias: bias_status, config: c, add: st };
        cleanup(gpiod, None, None, Some(settings), Some(config));
        assert(gpiod.backend.calls() =~= start + prepare_calls(offset, direction, bias, a));
        return Err(e);
    }
    let ghost a = PrepAnswers { settings: s, direction: 0, bias: bias_status, config: c, add: 0 };
    assert(gpiod.backend.calls() =~= start + prepare_calls(offset, direction, bias, a));
    Ok((settings, config))
}

/// Where and how long the sensor is woken and listened to.
#[derive(Clone, Copy, Debug)]
pub struct SensorConfig {
    /// The line the sensor is wired to.
    pub offset: u32,
    /// How long the line is held low to wake the sensor, in microseconds.
    pub wake_low_us: u64,
    /// How long the line is then held high before it is read, in microseconds.
    pub release_high_us: u64,
    /// How long each acknowledgement pulse may last, in microseconds.
    pub timeout_us: u64,
    /// How many reads each pulse measurement makes at most.
    pub max_polls: u64,
}

/// The chip's name and the widths of the sensor's two acknowledgement pulses.
#[derive(Debug)]
pub struct AckPulses {
    pub chip_name: String,
    pub low_us: u64,
    pub high_us: u64,
}

/// What the backend answered during [`read_ack_pulses`], in call order:
/// chip and info handles, the name, the answers to preparing the output line,
/// the request handle, the statuses of driving low and high, the answers to
/// preparing the input line, the status of the reconfiguration, and the two
/// pulse measurements with their results. Answers to calls that were not made
/// are of no account.
pub struct AckAnswers {
    pub chip: usize,
    pub info: usize,
    pub name: Option<Seq<char>>,
    pub output: PrepAnswers,
    pub request: usize,
    pub low_status: i32,
    pub high_status: i32,
    pub input: PrepAnswers,
    pub reconfigure: i32,
    pub low_trace: Seq<BackendCall>,
    pub low: Result<u64, GpiodError>,
    pub high_trace: Seq<BackendCall>,
    pub high: Result<u64, GpiodError>,
}

/// The pulse measurement settings of a sensor configuration.
pub open spec fn pulse_config_of(config: SensorConfig) -> PulseConfig {
    PulseConfig { offset: config.offset, timeout_us: config.timeout_us, max_polls: config.max_polls }
}

/// The calls of [`claim_line`] on `path` when the backend answers `a`: open
/// the chip, read its metadata and name, prepare the output line (output,
/// pulled up, on `config.offset`), claim it and free the output settings and
/// config. On the first failure what is held is released and nothing more is
/// called.
pub open spec fn claim_calls(path: Seq<char>, config: SensorConfig, a: AckAnswers) -> Seq<
    BackendCall,
> {
    let so = a.output.settings;
    let co = a.output.config;
    let opened = seq![BackendCall::ChipOpen(path, a.chip)];
    let informed = opened.push(BackendCall::ChipGetInfo(a.chip, a.info));
    let named = informed.push(BackendCall::ChipInfoGetName(a.info, a.name));
    let prepared = named + prepare_calls(
        config.offset,
        Direction::Output,
        Some(Bias::PullUp),
        a.output,
    );
    let requested = prepared.push(BackendCall::RequestLines(a.chip, co, a.request));
    let chip_and_info = release_calls(chip_of(a.chip), info_of(a.info), None, None);
    if a.chip == 0 {
        opened
    } else if a.info == 0 {
        informed + release_calls(chip_of(a.chip), None, None, None)
    } else if a.name is None {
        named + chip_and_info
    } else if prepare_result(Direction::Output, Some(Bias::PullUp), a.output) is Err {
        prepared + chip_and_info
    } else if a.request == 0 {
        requested + release_calls(chip_of(a.chip), info_of(a.info), settings_of(so), config_of(co))
    } else {
        requested + release_calls(None, None, settings_of(so), config_of(co))
    }
}

/// What [`claim_line`] returns, as raw handles and the name, when the backend
/// answers `a`.
pub open spec fn claim_result(a: AckAnswers) -> Result<(usize, usize, Seq<char>, usize), GpiodError> {
    let output = prepare_result(Direction::Output, Some(Bias::PullUp), a.output);
    if a.chip == 0 {
        Err(GpiodError::OpenChip)
    } else if a.info == 0 {
        Err(GpiodError::GetChipInfo)
    } else if a.name is None {
        Err(GpiodError::GetChipName)
    } else if output is Err {
        Err(output->Err_0)
    } else if a.request == 0 {
        Err(GpiodError::LineRequest)
    } else {
        Ok((a.chip, a.info, a.name->Some_0, a.request))
    }
}

pub open spec fn claim_view(r: Result<(ChipHandle, ChipInfo, String, LineRequest), GpiodError>) -> Result<
    (usize, usize, Seq<char>, usize),
    GpiodError,
> {
    match r {
        Ok((c, i, n, q)) => Ok((c.raw, i.raw, n@, q.raw)),
        Err(e) => Err(e),
    }
}

/// Whether every step of [`measure_ack`] before the pulse measurements
/// succeeded.
pub open spec fn reaches_pulses(a: AckAnswers) -> bool {
    &&& a.low_status == 0
    &&& a.high_status == 0
    &&& prepare_result(Direction::Input, None, a.input) is Ok
    &&& a.reconfigure == 0
}

/// The calls of [`measure_ack`] on the claim `a.request` of chip `a.chip`
/// with metadata `a.info`: drive the line low for `wake_low_us` and high for
/// `release_high_us`, prepare the input line and reconfigure the claim with
/// it, free chip, metadata, settings and config, measure the low pulse and,
/// only if that succeeded, the high pulse, and give the claim back. On the
/// first failure the claim, then chip and metadata, are released.
pub open spec fn measure_calls(config: SensorConfig, a: AckAnswers) -> Seq<BackendCall> {
    let off = config.offset;
    let q = a.request;
    let driven_low = seq![BackendCall::RequestSetValue(q, off, false, a.low_status)];
    let driven_high = driven_low + seq![
        BackendCall::Sleep(config.wake_low_us),
        BackendCall::RequestSetValue(q, off, true, a.high_status),
    ];
    let listening = driven_high.push(BackendCall::Sleep(config.release_high_us)) + prepare_calls(
        off,
        Direction::Input,
        None,
        a.input,
    );
    let reconfigured = listening.push(
        BackendCall::RequestReconfigure(q, a.input.config, a.reconfigure),
    ) + release_calls(
        chip_of(a.chip),
        info_of(a.info),
        settings_of(a.input.settings),
        config_of(a.input.config),
    );
    let chip_and_info = release_calls(chip_of(a.chip), info_of(a.info), None, None);
    let give_back = seq![BackendCall::RequestRelease(q)];
    if a.low_status != 0 {
        driven_low + give_back + chip_and_info
    } else if a.high_status != 0 {
        driven_high + give_back + chip_and_info
    } else if prepare_result(Direction::Input, None, a.input) is Err {
        listening + give_back + chip_and_info
    } else if a.reconfigure != 0 {
        reconfigured + give_back
    } else if a.low is Err {
        reconfigured + a.low_trace + give_back
    } else {
        reconfigured + a.low_trace + a.high_trace + give_back
    }
}

/// What [`measure_ack`] returns when the backend answers `a`.
pub open spec fn measure_result(a: AckAnswers) -> Result<(u64, u64), GpiodError> {
    let input = prepare_result(Direction::Input, None, a.input);
    if a.low_status != 0 || a.high_status != 0 {
        Err(GpiodError::LineRequestSetValue)
    } else if input is Err {
        Err(input->Err_0)
    } else if a.reconfigure != 0 {
        Err(GpiodError::LineRequestSetValue)
    } else {
        match (a.low, a.high) {
            (Ok(low), Ok(high)) => Ok((low, high)),
            (Err(e), _) => Err(e),
            (Ok(_), Err(e)) => Err(e),
        }
    }
}

/// The measurements in `a` are runs of [`expect_pulse`] on the claimed line:
/// the low pulse (expected value `false`), then, if it succeeded, the high one.
pub open spec fn ack_measured(config: SensorConfig, a: AckAnswers) -> bool {
    reaches_pulses(a) ==> {
        &&& pulse_trace(a.request, false, pulse_config_of(config), a.low_trace, a.low)
        &&& a.low is Ok ==> pulse_trace(
            a.request,
            true,
            pulse_config_of(config),
            a.high_trace,
            a.high,
        )
    }
}

/// The calls of [`read_ack_pulses`] on `path` when the backend answers `a`:
/// those of [`claim_line`], then, if it succeeded, those of [`measure_ack`].
pub open spec fn ack_calls(path: Seq<char>, config: SensorConfig, a: AckAnswers) -> Seq<
    BackendCall,
> {
    if claim_result(a) is Err {
        claim_calls(path, config, a)
    } else {
        claim_calls(path, config, a) + measure_calls(config, a)
    }
}

/// What [`read_ack_pulses`] returns when the backend answers `a`: the error of
/// the first step that failed, or the name with the two pulse widths.
pub open spec fn ack_result(a: AckAnswers) -> Result<(Seq<char>, u64, u64), GpiodError> {
    match claim_result(a) {
        Err(e) => Err(e),
        Ok((_, _, name, _)) => match measure_result(a) {
            Ok((low, high)) => Ok((name, low, high)),
            Err(e) => Err(e),
        },
    }
}

/// A result of [`read_ack_pulses`] with the name seen as characters.
pub open spec fn ack_view(r: Result<AckPulses, GpiodError>) -> Result<
    (Seq<char>, u64, u64),
    GpiodError,
> {
    match r {
        Ok(p) => Ok((p.chip_name@, p.low_us, p.high_us)),
        Err(e) => Err(e),
    }
}

/// `trace` is the run of [`read_ack_pulses`] on `path` that ended in `r`.
pub open spec fn ack_exchange(
    path: Seq<char>,
    config: SensorConfig,
    trace: Seq<BackendCall>,
    r: Result<AckPulses, GpiodError>,
) -> bool {
    exists|a: AckAnswers|
        trace == #[trigger] ack_calls(path, config, a) && ack_measured(config, a) && ack_result(a)
            == ack_view(r)
}

/// The answers before any call is made.
pub open spec fn no_answers() -> AckAnswers {
    let none = PrepAnswers { settings: 0, direction: 0, bias: 0, config: 0, add: 0 };
    AckAnswers {
        chip: 0,
        info: 0,
        name: None,
        output: none,
        request: 0,
        low_status: 0,
        high_status: 0,
        input: none,
        reconfigure: 0,
        low_trace: Seq::empty(),
        low: Ok(0),
        high_trace: Seq::empty(),
        high: Ok(0),
    }
}

/// Opens the chip at `path`, reads its name and claims `config.offset` as a
/// pulled-up output; the output settings and config are freed once the claim
/// is made. On failure, what was acquired is released.
pub fn claim_line<B: IGpiod>(gpiod: &mut Gpiod<B>, path: &str, config: &SensorConfig) -> (r:
    Result<(ChipHandle, ChipInfo, String, LineRequest), GpiodError>)
    ensures
        exists|a: AckAnswers|
            final(gpiod).backend.calls() == old(gpiod).backend.calls() + #[trigger] claim_calls(
                path@,
                *config,
                a,
            ) && claim_result(a) == claim_view(r),
        r is Ok ==> held_changed_by(
            old(gpiod).backend.calls(),
            final(gpiod).backend.calls(),
            1,
            1,
            0,
            0,
            1,
        ),
        r is Err ==> held_changed_by(
            old(gpiod).backend.calls(),
            final(gpiod).backend.calls(),
            0,
            0,
            0,
            0,
            0,
        ),
{
    proof {
        lemma_held_step();
    }
    let ghost start = gpiod.backend.calls();
    let ghost mut a = no_answers();
    let chip = match gpiod.chip(path) {
        Ok(c) => c,
        Err(e) => {
            assert(gpiod.backend.calls() =~= start + claim_calls(path@, *config, a));
            return Err(e);
        },
    };
    proof {
        a.chip = chip.raw;
    }
    let info = match gpiod.info(&chip) {
        Ok(i) => i,
        Err(e) => {
            cleanup(gpiod, Some(chip), None, None, None);
            assert(gpiod.backend.calls() =~= start + claim_calls(path@, *config, a));
            return Err(e);
        },
    };
    proof {
        a.info = info.raw;
    }
    let named = gpiod.name(&info);
    proof {
        a.name = gpiod.backend.calls().last()->ChipInfoGetName_1;
    }
    let chip_name = match named {
        Ok(n) => n,
        Err(e) => {
            cleanup(gpiod, Some(chip), Some(info), None, None);
            assert(gpiod.backend.calls() =~= start + claim_calls(path@, *config, a));
            return Err(e);
        },
    };
    let ghost before = gpiod.backend.calls();
    let prepared = prepare_line(gpiod, config.offset, Direction::Output, Some(Bias::PullUp));
    proof {
        a.output = choose|p: PrepAnswers|
            gpiod.backend.calls() == before + #[trigger] prepare_calls(
                config.offset,
                Direction::Output,
                Some(Bias::PullUp),
                p,
            ) && prepare_result(Direction::Output, Some(Bias::PullUp), p) == raw_pair(prepared);
    }
    let (settings, line_config) = match prepared {
        Ok(p) => p,
        Err(e) => {
            cleanup(gpiod, Some(chip), Some(info), None, None);
            assert(gpiod.backend.calls() =~= start + claim_calls(path@, *config, a));
            return Err(e);
        },
    };
    let request = match gpiod.chip_request_lines(&chip, &line_config) {
        Ok(r) => r,
        Err(e) => {
            cleanup(gpiod, Some(chip), Some(info), Some(settings), Some(line_config));
            assert(gpiod.backend.calls() =~= start + claim_calls(path@, *config, a));
            return Err(e);
        },
    };
    proof {
        a.request = request.raw;
    }
    // The claim holds the line from here on; the output settings are done with.
    cleanup(gpiod, None, None, Some(settings), Some(line_config));
    assert(gpiod.backend.calls() =~= start + claim_calls(path@, *config, a));
    Ok((chip, info, chip_name, request))
}

/// Wakes the sensor on the claimed line, switches the claim to input, frees
/// `chip` and `info` along with the input settings and config, times the low
/// and then the high acknowledgement pulse, and gives the claim back.
#[verifier::rlimit(100)]
#[verifier::spinoff_prover]
pub fn measure_ack<B: IGpiod>(
    gpiod: &mut Gpiod<B>,
    chip: ChipHandle,
    info: ChipInfo,
    request: LineRequest,
    config: &SensorConfig,
) -> (r: Result<(u64, u64), GpiodError>)
    requires
        request.raw != 0,
    ensures
        exists|a: AckAnswers|
            a.chip == chip.raw && a.info == info.raw && a.request == request.raw
                && final(gpiod).backend.calls() == old(gpiod).backend.calls()
                + #[trigger] measure_calls(*config, a) && ack_measured(*config, a)
                && measure_result(a) == r,
        held_changed_by(
            old(gpiod).backend.calls(),
            final(gpiod).backend.calls(),
            -1,
            -1,
            0,
            0,
            -1,
        ),
{
    proof {
        lemma_held_step();
    }
    let ghost start = gpiod.backend.calls();
    let ghost mut a = no_answers();
    proof {
        a.chip = chip.raw;
        a.info = info.raw;
        a.request = request.raw;
    }
    let low = gpiod.line_request_set_value(&request, config.offset, false);
    proof {
        a.low_status = gpiod.backend.calls().last()->RequestSetValue_3;
    }
    if let Err(e) = low {
        gpiod.release_request(request);
        cleanup(gpiod, Some(chip), Some(info), None, None);
        assert(gpiod.backend.calls() =~= start + measure_calls(*config, a));
        return Err(e);
    }
    gpiod.sleep_micros(config.wake_low_us);
    let high = gpiod.line_request_set_value(&request, config.offset, true);
    proof {
        a.high_status = gpiod.backend.calls().last()->RequestSetValue_3;
    }
    if let Err(e) = high {
        gpiod.release_request(request);
        cleanup(gpiod, Some(chip), Some(info), None, None);
        assert(gpiod.backend.calls() =~= start + measure_calls(*config, a));
        return Err(e);
    }
    gpiod.sleep_micros(config.release_high_us);
    let ghost before = gpiod.backend.calls();
    let prepared = prepare_line(gpiod, config.offset, Direction::Input, None);
    proof {
        a.input = choose|p: PrepAnswers|
            gpiod.backend.calls() == before + #[trigger] prepare_calls(
                config.offset,
                Direction::Input,
                None,
                p,
            ) && prepare_result(Direction::Input, None, p) == raw_pair(prepared);
    }
    let (settings, line_config) = match prepared {
        Ok(p) => p,
        Err(e) => {
            gpiod.release_request(request);
            cleanup(gpiod, Some(chip), Some(info), None, None);
            assert(gpiod.backend.calls() =~= start + measure_calls(*config, a));
            return Err(e);
        },
    };
    let reconfigured = gpiod.line_request_reconfigure_lines(&request, &line_config);
    proof {
        a.reconfigure = gpiod.backend.calls().last()->RequestReconfigure_2;
    }
    // Chip, metadata, settings and config are no longer needed, whatever came back.
    cleanup(gpiod, Some(chip), Some(info), Some(settings), Some(line_config));
    if let Err(e) = reconfigured {
        gpiod.release_request(request);
        assert(gpiod.backend.calls() =~= start + measure_calls(*config, a));
        return Err(e);
    }
    let pulse = PulseConfig {
        offset: config.offset,
        timeout_us: config.timeout_us,
        max_polls: config.max_polls,
    };
    let ghost before = gpiod.backend.calls();
    let low = expect_pulse(gpiod, false, &request, pulse);
    proof {
        a.low = low;
        a.low_trace = choose|t: Seq<BackendCall>|
            gpiod.backend.calls() == before + t && #[trigger] pulse_trace(
                request.raw,
                false,
                pulse,
                t,
                low,
            );
    }
    let ghost before = gpiod.backend.calls();
    let high = match low {
        Ok(_) => expect_pulse(gpiod, true, &request, pulse),
        Err(e) => Err(e),
    };
    proof {
        if low is Ok {
            a.high = high;
            a.high_trace = choose|t: Seq<BackendCall>|
                gpiod.backend.calls() == before + t && #[trigger] pulse_trace(
                    request.raw,
                    true,
                    pulse,
                    t,
                    high,
                );
        }
    }
    gpiod.release_request(request);
    assert(gpiod.backend.calls() =~= start + measure_calls(*config, a));
    match (low, high) {
        (Ok(low_us), Ok(high_us)) => Ok((low_us, high_us)),
        (Err(e), _) => Err(e),
        (_, Err(e)) => Err(e),
    }
}

/// Measures the sensor's acknowledgement on the chip at `path`: claims the line
/// ([`claim_line`]), then wakes the sensor and times its two pulses
/// ([`measure_ack`]).
///
/// Whatever step fails, each resource acquired on the way is released once:
/// the calls leave every held count as it was.
pub fn read_ack_pulses<B: IGpiod>(gpiod: &mut Gpiod<B>, path: &str, config: &SensorConfig) -> (r:
    Result<AckPulses, GpiodError>)
    ensures
        exists|trace: Seq<BackendCall>|
            final(gpiod).backend.calls() == old(gpiod).backend.calls() + trace
                && #[trigger] ack_exchange(path@, *config, trace, r),
        held_changed_by(old(gpiod).backend.calls(), final(gpiod).backend.calls(), 0, 0, 0, 0, 0),
{
    let ghost start = gpiod.backend.calls();
    let claimed = claim_line(gpiod, path, config);
    let ghost first = choose|a: AckAnswers|
        gpiod.backend.calls() == start + #[trigger] claim_calls(path@, *config, a) && claim_result(
            a,
        ) == claim_view(claimed);
    let (chip, info, chip_name, request) = match claimed {
        Ok(c) => c,
        Err(e) => {
            let ghost a = AckAnswers {
                chip: first.chip,
                info: first.info,
                name: first.name,
                output: first.output,
                request: first.request,
                ..no_answers()
            };
            assert(claim_calls(path@, *config, a) == claim_calls(path@, *config, first));
            assert(ack_exchange(path@, *config, ack_calls(path@, *config, a), Err(e)));
            return Err(e);
        },
    };
    let ghost middle = gpiod.backend.calls();
    let measured = measure_ack(gpiod, chip, info, request, config);
    let ghost second = choose|a: AckAnswers|
        a.chip == first.chip && a.info == first.info && a.request == first.request
            && gpiod.backend.calls() == middle + #[trigger] measure_calls(*config, a)
            && ack_measured(*config, a) && measure_result(a) == measured;
    let ghost a = AckAnswers {
        chip: first.chip,
        info: first.info,
        name: first.name,
        output: first.output,
        request: first.request,
        low_status: second.low_status,
        high_status: second.high_status,
        input: second.input,
        reconfigure: second.reconfigure,
        low_trace: second.low_trace,
        low: second.low,
        high_trace: second.high_trace,
        high: second.high,
    };
    assert(claim_calls(path@, *config, a) == claim_calls(path@, *config, first));
    assert(measure_calls(*config, a) == measure_calls(*config, second));
    assert(gpiod.backend.calls() =~= start + ack_calls(path@, *config, a));
    let r = match measured {
        Ok((low_us, high_us)) => Ok(AckPulses { chip_name, low_us, high_us }),
        Err(e) => Err(e),
    };
    assert(ack_exchange(path@, *config, ack_calls(path@, *config, a), r));
    r
}

/// A path that the backend refuses to open ends the exchange with `OpenChip`
/// after that one call: nothing was acquired, so nothing is released.
pub proof fn lemma_exchange_refused_path(path: Seq<char>, config: SensorConfig, a: AckAnswers)
    requires
        a.chip == 0,
    ensures
        ack_calls(path, config, a) == seq![BackendCall::ChipOpen(path, 0)],
        ack_result(a) == Err::<(Seq<char>, u64, u64), GpiodError>(GpiodError::OpenChip),
{
}

/// When the chip opens and its metadata and name are read but no settings
/// object can be created, the exchange ends with `CreateSettings` after
/// releasing exactly the metadata and then the chip.
pub proof fn lemma_exchange_settings_refused(path: Seq<char>, config: SensorConfig, a: AckAnswers)
    requires
        a.chip != 0,
        a.info != 0,
        a.name is Some,
        a.output.settings == 0,
    ensures
        ack_calls(path, config, a) == seq![
            BackendCall::ChipOpen(path, a.chip),
            BackendCall::ChipGetInfo(a.chip, a.info),
            BackendCall::ChipInfoGetName(a.info, a.name),
            BackendCall::SettingsNew(0),
            BackendCall::InfoFree(a.info),
            BackendCall::ChipClose(a.chip),
        ],
        ack_result(a) == Err::<(Seq<char>, u64, u64), GpiodError>(GpiodError::CreateSettings),
{
    assert(ack_calls(path, config, a) =~= seq![
        BackendCall::ChipOpen(path, a.chip),
        BackendCall::ChipGetInfo(a.chip, a.info),
        BackendCall::ChipInfoGetName(a.info, a.name),
        BackendCall::SettingsNew(0),
        BackendCall::InfoFree(a.info),
        BackendCall::ChipClose(a.chip),
    ]);
}

} // verus!
