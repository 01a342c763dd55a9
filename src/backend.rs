use vstd::prelude::*;
use crate::error::{Bias, Direction};

verus! {

/// One call into the device backend, with the values handed to it and the
/// value it returned. Handles are raw, `0` being null; statuses are `0` on
/// success.
pub enum BackendCall {
    /// `chip_open(path)` returned this handle.
    ChipOpen(Seq<char>, usize),
    /// `chip_get_info(chip)` returned this handle.
    ChipGetInfo(usize, usize),
    /// `chip_info_get_name(info)` returned this name, `None` for null.
    ChipInfoGetName(usize, Option<Seq<char>>),
    /// `line_settings_new` returned this handle.
    SettingsNew(usize),
    /// `line_settings_set_bias(settings, bias)` returned this status.
    SettingsSetBias(usize, Bias, i32),
    /// `line_settings_set_direction(settings, direction)` returned this status.
    SettingsSetDirection(usize, Direction, i32),
    /// `line_config_new` returned this handle.
    ConfigNew(usize),
    /// `line_config_add_settings(config, offsets, settings)` returned this status.
    ConfigAddSettings(usize, Seq<u32>, usize, i32),
    /// `chip_request_lines(chip, config)` returned this handle.
    RequestLines(usize, usize, usize),
    /// `line_request_set_value(request, offset, value)` returned this status.
    RequestSetValue(usize, u32, bool, i32),
    /// `line_request_reconfigure(request, config)` returned this status.
    RequestReconfigure(usize, usize, i32),
    /// `line_request_get_value(request, offset)` returned this code.
    RequestGetValue(usize, u32, i32),
    /// `line_request_release(request)`.
    RequestRelease(usize),
    /// `line_config_free(config)`.
    ConfigFree(usize),
    /// `line_settings_free(settings)`.
    SettingsFree(usize),
    /// `chip_info_free(info)`.
    InfoFree(usize),
    /// `chip_close(chip)`.
    ChipClose(usize),
    /// `now_micros` returned this reading.
    Clock(u64),
    /// `sleep_micros(duration)`.
    Sleep(u64),
}

/// The name that `chip_info_get_name` hands back, as a sequence of characters.
pub open spec fn name_view(name: Option<String>) -> Option<Seq<char>> {
    match name {
        Some(s) => Some(s@),
        None => None,
    }
}

/// The capabilities that a GPIO character-device library offers, at the level
/// of its C interface: handles are raw (`0` is null) and failures are
/// signalled by a null handle or a nonzero status.
///
/// What a call returns is up to the device. What is asked of an
/// implementation is that `calls()` is its record of the calls made on it:
/// each call appends itself, with its arguments and its result, and nothing
/// else changes the record. An implementation that keeps no record inherits
/// the empty one, and code that is generic over the backend never sees it.
pub trait IGpiod {
    /// The calls made on this backend, oldest first.
    closed spec fn calls(&self) -> Seq<BackendCall> {
        Seq::empty()
    }

    /// Opens the chip at `path`.
    fn chip_open(&mut self, path: &str) -> (r: usize)
        ensures
            final(self).calls() == old(self).calls().push(BackendCall::ChipOpen(path@, r)),
    ;

    /// Reads the metadata of an open chip.
    fn chip_get_info(&mut self, chip: usize) -> (r: usize)
        ensures
            final(self).calls() == old(self).calls().push(BackendCall::ChipGetInfo(chip, r)),
    ;

    /// Reads the chip's name out of its metadata; `None` stands for null.
    fn chip_info_get_name(&mut self, info: usize) -> (r: Option<String>)
        ensures
            final(self).calls() == old(self).calls().push(
                BackendCall::ChipInfoGetName(info, name_view(r)),
            ),
    ;

    /// Creates a settings object.
    fn line_settings_new(&mut self) -> (r: usize)
        ensures
            final(self).calls() == old(self).calls().push(BackendCall::SettingsNew(r)),
    ;

    /// Sets the bias of a settings object.
    fn line_settings_set_bias(&mut self, settings: usize, bias: Bias) -> (r: i32)
        ensures
            final(self).calls() == old(self).calls().push(
                BackendCall::SettingsSetBias(settings, bias, r),
            ),
    ;

    /// Sets the direction of a settings object.
    fn line_settings_set_direction(&mut self, settings: usize, direction: Direction) -> (r: i32)
        ensures
            final(self).calls() == old(self).calls().push(
                BackendCall::SettingsSetDirection(settings, direction, r),
            ),
    ;

    /// Creates a config object.
    fn line_config_new(&mut self) -> (r: usize)
        ensures
            final(self).calls() == old(self).calls().push(BackendCall::ConfigNew(r)),
    ;

    /// Attaches `settings` to each of `offsets` in `config`.
    fn line_config_add_settings(&mut self, config: usize, offsets: &[u32], settings: usize) -> (r:
        i32)
        ensures
            final(self).calls() == old(self).calls().push(
                BackendCall::ConfigAddSettings(config, offsets@, settings, r),
            ),
    ;

    /// Requests the lines that `config` names.
    fn chip_request_lines(&mut self, chip: usize, config: usize) -> (r: usize)
        ensures
            final(self).calls() == old(self).calls().push(
                BackendCall::RequestLines(chip, config, r),
            ),
    ;

    /// Drives a requested line.
    fn line_request_set_value(&mut self, request: usize, offset: u32, value: bool) -> (r: i32)
        ensures
            final(self).calls() == old(self).calls().push(
                BackendCall::RequestSetValue(request, offset, value, r),
            ),
    ;

    /// Applies `config` to the lines already held by `request`.
    fn line_request_reconfigure(&mut self, request: usize, config: usize) -> (r: i32)
        ensures
            final(self).calls() == old(self).calls().push(
                BackendCall::RequestReconfigure(request, config, r),
            ),
    ;

    /// Reads a requested line: `1` active, `0` inactive, `-1` failure.
    fn line_request_get_value(&mut self, request: usize, offset: u32) -> (r: i32)
        ensures
            final(self).calls() == old(self).calls().push(
                BackendCall::RequestGetValue(request, offset, r),
            ),
    ;

    /// Gives the requested lines back.
    fn line_request_release(&mut self, request: usize)
        ensures
            final(self).calls() == old(self).calls().push(BackendCall::RequestRelease(request)),
    ;

    /// Frees a config object.
    fn line_config_free(&mut self, config: usize)
        ensures
            final(self).calls() == old(self).calls().push(BackendCall::ConfigFree(config)),
    ;

    /// Frees a settings object.
    fn line_settings_free(&mut self, settings: usize)
        ensures
            final(self).calls() == old(self).calls().push(BackendCall::SettingsFree(settings)),
    ;

    /// Frees chip metadata.
    fn chip_info_free(&mut self, info: usize)
        ensures
            final(self).calls() == old(self).calls().push(BackendCall::InfoFree(info)),
    ;

    /// Closes a chip.
    fn chip_close(&mut self, chip: usize)
        ensures
            final(self).calls() == old(self).calls().push(BackendCall::ChipClose(chip)),
    ;

    /// Reads a monotonic clock, in microseconds.
    fn now_micros(&mut self) -> (r: u64)
        ensures
            final(self).calls() == old(self).calls().push(BackendCall::Clock(r)),
    ;

    /// Blocks for `duration` microseconds.
    fn sleep_micros(&mut self, duration: u64)
        ensures
            final(self).calls() == old(self).calls().push(BackendCall::Sleep(duration)),
    ;
}

} // verus!
