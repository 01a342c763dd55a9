use vstd::prelude::*;
use crate::backend::{name_view, BackendCall, IGpiod};
use crate::error::{Bias, Direction, GpiodError};
use crate::handles::{ChipHandle, ChipInfo, LineConfig, LineRequest, LineSettings};

verus! {

/// What opening a chip gives when the backend returned `raw`.
pub open spec fn chip_outcome(raw: usize) -> Result<ChipHandle, GpiodError> {
    if raw == 0 {
        Err(GpiodError::OpenChip)
    } else {
        Ok(ChipHandle { raw })
    }
}

/// What reading chip metadata gives when the backend returned `raw`.
pub open spec fn info_outcome(raw: usize) -> Result<ChipInfo, GpiodError> {
    if raw == 0 {
        Err(GpiodError::GetChipInfo)
    } else {
        Ok(ChipInfo { raw })
    }
}

/// What creating a settings object gives when the backend returned `raw`.
pub open spec fn settings_outcome(raw: usize) -> Result<LineSettings, GpiodError> {
    if raw == 0 {
        Err(GpiodError::CreateSettings)
    } else {
        Ok(LineSettings { raw })
    }
}

/// What creating a config object gives when the backend returned `raw`.
pub open spec fn config_outcome(raw: usize) -> Result<LineConfig, GpiodError> {
    if raw == 0 {
        Err(GpiodError::CreateConfig)
    } else {
        Ok(LineConfig { raw })
    }
}

/// What requesting lines gives when the backend returned `raw`.
pub open spec fn request_outcome(raw: usize) -> Result<LineRequest, GpiodError> {
    if raw == 0 {
        Err(GpiodError::LineRequest)
    } else {
        Ok(LineRequest { raw })
    }
}

/// What reading the name gives when the backend reported `name`.
pub open spec fn name_outcome(name: Option<Seq<char>>) -> Result<Seq<char>, GpiodError> {
    match name {
        Some(n) => Ok(n),
        None => Err(GpiodError::GetChipName),
    }
}

/// A name result, with the string seen as characters.
pub open spec fn name_view_of(r: Result<String, GpiodError>) -> Result<Seq<char>, GpiodError> {
    match r {
        Ok(s) => Ok(s@),
        Err(e) => Err(e),
    }
}

/// A status call succeeds on `0` and fails with `err` otherwise.
pub open spec fn status_outcome(status: i32, err: GpiodError) -> Result<(), GpiodError> {
    if status == 0 {
        Ok(())
    } else {
        Err(err)
    }
}

/// A read gives `-1` on failure and `1` for an active line.
pub open spec fn value_outcome(code: i32) -> Result<bool, GpiodError> {
    if code == -1 {
        Err(GpiodError::LineRequestGetValue)
    } else {
        Ok(code == 1)
    }
}

/// Offsets that name at least one line, each at most once.
pub open spec fn valid_offsets(offsets: Seq<u32>) -> bool {
    &&& offsets.len() > 0
    &&& forall|i: int, j: int|
        0 <= i < offsets.len() && 0 <= j < offsets.len() && i != j ==> offsets[i] != offsets[j]
}

/// The resource acquisition operations, each one checked step over a backend.
///
/// Every operation refuses a null input handle with `NullPtr` before calling
/// anything, and maps the backend's failure signal (a null handle or a nonzero
/// status) to its own error kind.
///
/// The contracts are stated over the backend's own record of the calls made
/// on it (`IGpiod::calls`).
pub struct Gpiod<B> {
    pub backend: B,
}

impl<B: IGpiod> Gpiod<B> {
    pub fn new(backend: B) -> (r: Self)
        ensures
            r.backend == backend,
    {
        Gpiod { backend }
    }

    /// Opens the chip at `path`.
    pub fn chip(&mut self, path: &str) -> (r: Result<ChipHandle, GpiodError>)
        ensures
            exists|raw: usize|
                final(self).backend.calls() == old(self).backend.calls().push(
                    BackendCall::ChipOpen(path@, raw),
                ) && r == #[trigger] chip_outcome(raw),
    {
        let raw = self.backend.chip_open(path);
        let r = if raw == 0 {
            Err(GpiodError::OpenChip)
        } else {
            Ok(ChipHandle { raw })
        };
        assert(r == chip_outcome(raw));
        r
    }

    /// Reads the metadata of `chip`.
    pub fn info(&mut self, chip: &ChipHandle) -> (r: Result<ChipInfo, GpiodError>)
        ensures
            chip.raw == 0 ==> r == Err::<ChipInfo, GpiodError>(GpiodError::NullPtr)
                && final(self).backend.calls() == old(self).backend.calls(),
            chip.raw != 0 ==> exists|raw: usize|
                final(self).backend.calls() == old(self).backend.calls().push(
                    BackendCall::ChipGetInfo(chip.raw, raw),
                ) && r == #[trigger] info_outcome(raw),
    {
        if chip.is_null() {
            return Err(GpiodError::NullPtr);
        }
        let raw = self.backend.chip_get_info(chip.raw);
        let r = if raw == 0 {
            Err(GpiodError::GetChipInfo)
        } else {
            Ok(ChipInfo { raw })
        };
        assert(r == info_outcome(raw));
        r
    }

    /// Reads the chip's name out of `info`: the name that the backend reports.
    pub fn name(&mut self, info: &ChipInfo) -> (r: Result<String, GpiodError>)
        ensures
            info.raw == 0 ==> r == Err::<String, GpiodError>(GpiodError::NullPtr)
                && final(self).backend.calls() == old(self).backend.calls(),
            info.raw != 0 ==> exists|name: Option<Seq<char>>|
                final(self).backend.calls() == old(self).backend.calls().push(
                    BackendCall::ChipInfoGetName(info.raw, name),
                ) && #[trigger] name_outcome(name) == name_view_of(r),
    {
        if info.is_null() {
            return Err(GpiodError::NullPtr);
        }
        let name = self.backend.chip_info_get_name(info.raw);
        let r = match name {
            Some(name) => Ok(name),
            None => Err(GpiodError::GetChipName),
        };
        assert(name_outcome(name_view(name)) == name_view_of(r));
        r
    }

    /// Creates a settings object.
    pub fn settings(&mut self) -> (r: Result<LineSettings, GpiodError>)
        ensures
            exists|raw: usize|
                final(self).backend.calls() == old(self).backend.calls().push(
                    BackendCall::SettingsNew(raw),
                ) && r == #[trigger] settings_outcome(raw),
    {
        let raw = self.backend.line_settings_new();
        let r = if raw == 0 {
            Err(GpiodError::CreateSettings)
        } else {
            Ok(LineSettings { raw })
        };
        assert(r == settings_outcome(raw));
        r
    }

    /// Sets the bias of `settings`.
    pub fn settings_set_bias(&mut self, settings: &LineSettings, bias: Bias) -> (r: Result<
        (),
        GpiodError,
    >)
        ensures
            settings.raw == 0 ==> r == Err::<(), GpiodError>(GpiodError::NullPtr)
                && final(self).backend.calls() == old(self).backend.calls(),
            settings.raw != 0 ==> exists|status: i32|
                final(self).backend.calls() == old(self).backend.calls().push(
                    BackendCall::SettingsSetBias(settings.raw, bias, status),
                ) && r == #[trigger] status_outcome(status, GpiodError::SetBias(bias)),
    {
        if settings.is_null() {
            return Err(GpiodError::NullPtr);
        }
        let status = self.backend.line_settings_set_bias(settings.raw, bias);
        let r = if status == 0 {
            Ok(())
        } else {
            Err(GpiodError::SetBias(bias))
        };
        assert(r == status_outcome(status, GpiodError::SetBias(bias)));
        r
    }

    /// Sets the direction of `settings`.
    pub fn settings_set_direction(&mut self, settings: &LineSettings, direction: Direction) -> (r:
        Result<(), GpiodError>)
        ensures
            settings.raw == 0 ==> r == Err::<(), GpiodError>(GpiodError::NullPtr)
                && final(self).backend.calls() == old(self).backend.calls(),
            settings.raw != 0 ==> exists|status: i32|
                final(self).backend.calls() == old(self).backend.calls().push(
                    BackendCall::SettingsSetDirection(settings.raw, direction, status),
                ) && r == #[trigger] status_outcome(status, GpiodError::SetDirection(direction)),
    {
        if settings.is_null() {
            return Err(GpiodError::NullPtr);
        }
        let status = self.backend.line_settings_set_direction(settings.raw, direction);
        let r = if status == 0 {
            Ok(())
        } else {
            Err(GpiodError::SetDirection(direction))
        };
        assert(r == status_outcome(status, GpiodError::SetDirection(direction)));
        r
    }

    /// Creates a config object.
    pub fn config(&mut self) -> (r: Result<LineConfig, GpiodError>)
        ensures
            exists|raw: usize|
                final(self).backend.calls() == old(self).backend.calls().push(
                    BackendCall::ConfigNew(raw),
                ) && r == #[trigger] config_outcome(raw),
    {
        let raw = self.backend.line_config_new();
        let r = if raw == 0 {
            Err(GpiodError::CreateConfig)
        } else {
            Ok(LineConfig { raw })
        };
        assert(r == config_outcome(raw));
        r
    }

    /// Associates each of `offsets` with `settings` in `config`.
    pub fn config_add_settings(
        &mut self,
        config: &LineConfig,
        settings: &LineSettings,
        offsets: &[u32],
    ) -> (r: Result<(), GpiodError>)
        requires
            valid_offsets(offsets@),
        ensures
            config.raw == 0 || settings.raw == 0 ==> r == Err::<(), GpiodError>(
                GpiodError::NullPtr,
            ) && final(self).backend.calls() == old(self).backend.calls(),
            config.raw != 0 && settings.raw != 0 ==> exists|status: i32|
                final(self).backend.calls() == old(self).backend.calls().push(
                    BackendCall::ConfigAddSettings(config.raw, offsets@, settings.raw, status),
                ) && r == #[trigger] status_outcome(status, GpiodError::CreateConfig),
    {
        if config.is_null() || settings.is_null() {
            return Err(GpiodError::NullPtr);
        }
        let status = self.backend.line_config_add_settings(config.raw, offsets, settings.raw);
        let r = if status == 0 {
            Ok(())
        } else {
            Err(GpiodError::CreateConfig)
        };
        assert(r == status_outcome(status, GpiodError::CreateConfig));
        r
    }

    /// Requests the lines that `config` names on `chip`.
    pub fn chip_request_lines(&mut self, chip: &ChipHandle, config: &LineConfig) -> (r: Result<
        LineRequest,
        GpiodError,
    >)
        ensures
            chip.raw == 0 || config.raw == 0 ==> r == Err::<LineRequest, GpiodError>(
                GpiodError::NullPtr,
            ) && final(self).backend.calls() == old(self).backend.calls(),
            chip.raw != 0 && config.raw != 0 ==> exists|raw: usize|
                final(self).backend.calls() == old(self).backend.calls().push(
                    BackendCall::RequestLines(chip.raw, config.raw, raw),
                ) && r == #[trigger] request_outcome(raw),
    {
        if chip.is_null() || config.is_null() {
            return Err(GpiodError::NullPtr);
        }
        let raw = self.backend.chip_request_lines(chip.raw, config.raw);
        let r = if raw == 0 {
            Err(GpiodError::LineRequest)
        } else {
            Ok(LineRequest { raw })
        };
        assert(r == request_outcome(raw));
        r
    }

    /// Drives the line at `offset` of `request` to `value`.
    pub fn line_request_set_value(&mut self, request: &LineRequest, offset: u32, value: bool) -> (r:
        Result<(), GpiodError>)
        ensures
            request.raw == 0 ==> r == Err::<(), GpiodError>(GpiodError::NullPtr)
                && final(self).backend.calls() == old(self).backend.calls(),
            request.raw != 0 ==> exists|status: i32|
                final(self).backend.calls() == old(self).backend.calls().push(
                    BackendCall::RequestSetValue(request.raw, offset, value, status),
                ) && r == #[trigger] status_outcome(status, GpiodError::LineRequestSetValue),
    {
        if request.is_null() {
            return Err(GpiodError::NullPtr);
        }
        let status = self.backend.line_request_set_value(request.raw, offset, value);
        let r = if status == 0 {
            Ok(())
        } else {
            Err(GpiodError::LineRequestSetValue)
        };
        assert(r == status_outcome(status, GpiodError::LineRequestSetValue));
        r
    }

    /// Applies `config` to the lines that `request` already holds.
    pub fn line_request_reconfigure_lines(
        &mut self,
        request: &LineRequest,
        config: &LineConfig,
    ) -> (r: Result<(), GpiodError>)
        ensures
            request.raw == 0 || config.raw == 0 ==> r == Err::<(), GpiodError>(GpiodError::NullPtr)
                && final(self).backend.calls() == old(self).backend.calls(),
            request.raw != 0 && config.raw != 0 ==> exists|status: i32|
                final(self).backend.calls() == old(self).backend.calls().push(
                    BackendCall::RequestReconfigure(request.raw, config.raw, status),
                ) && r == #[trigger] status_outcome(status, GpiodError::LineRequestSetValue),
    {
        if request.is_null() || config.is_null() {
            return Err(GpiodError::NullPtr);
        }
        let status = self.backend.line_request_reconfigure(request.raw, config.raw);
        let r = if status == 0 {
            Ok(())
        } else {
            Err(GpiodError::LineRequestSetValue)
        };
        assert(r == status_outcome(status, GpiodError::LineRequestSetValue));
        r
    }

    /// Reads the line at `offset` of `request`.
    pub fn line_request_get_value(&mut self, request: &LineRequest, offset: u32) -> (r: Result<
        bool,
        GpiodError,
    >)
        ensures
            request.raw == 0 ==> r == Err::<bool, GpiodError>(GpiodError::NullPtr)
                && final(self).backend.calls() == old(self).backend.calls(),
            request.raw != 0 ==> exists|code: i32|
                final(self).backend.calls() == old(self).backend.calls().push(
                    BackendCall::RequestGetValue(request.raw, offset, code),
                ) && r == #[trigger] value_outcome(code),
    {
        if request.is_null() {
            return Err(GpiodError::NullPtr);
        }
        let code = self.backend.line_request_get_value(request.raw, offset);
        let r = if code == -1 {
            Err(GpiodError::LineRequestGetValue)
        } else {
            Ok(code == 1)
        };
        assert(r == value_outcome(code));
        r
    }

    /// Gives back the lines that `request` holds. A null request is ignored.
    pub fn release_request(&mut self, request: LineRequest)
        ensures
            request.raw == 0 ==> final(self).backend.calls() == old(self).backend.calls(),
            request.raw != 0 ==> final(self).backend.calls() == old(self).backend.calls().push(
                BackendCall::RequestRelease(request.raw),
            ),
    {
        if !request.is_null() {
            self.backend.line_request_release(request.raw);
        }
    }

    /// Frees a config object.
    pub fn free_config(&mut self, config: LineConfig)
        ensures
            final(self).backend.calls() == old(self).backend.calls().push(BackendCall::ConfigFree(config.raw)),
    {
        self.backend.line_config_free(config.raw);
    }

    /// Frees a settings object.
    pub fn free_settings(&mut self, settings: LineSettings)
        ensures
            final(self).backend.calls() == old(self).backend.calls().push(
                BackendCall::SettingsFree(settings.raw),
            ),
    {
        self.backend.line_settings_free(settings.raw);
    }

    /// Frees chip metadata.
    pub fn free_info(&mut self, info: ChipInfo)
        ensures
            final(self).backend.calls() == old(self).backend.calls().push(BackendCall::InfoFree(info.raw)),
    {
        self.backend.chip_info_free(info.raw);
    }

    /// Closes a chip.
    pub fn close_chip(&mut self, chip: ChipHandle)
        ensures
            final(self).backend.calls() == old(self).backend.calls().push(BackendCall::ChipClose(chip.raw)),
    {
        self.backend.chip_close(chip.raw);
    }

    /// Reads the backend's clock, in microseconds.
    pub fn now_micros(&mut self) -> (r: u64)
        ensures
            final(self).backend.calls() == old(self).backend.calls().push(BackendCall::Clock(r)),
    {
        let r = self.backend.now_micros();
        r
    }

    /// Blocks for `duration` microseconds.
    pub fn sleep_micros(&mut self, duration: u64)
        ensures
            final(self).backend.calls() == old(self).backend.calls().push(BackendCall::Sleep(duration)),
    {
        self.backend.sleep_micros(duration);
    }
}

} // verus!
