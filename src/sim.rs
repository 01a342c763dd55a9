use vstd::prelude::*;
use crate::backend::{name_view, BackendCall, IGpiod};
use crate::error::{Bias, Direction};
use crate::gpiod::value_outcome;

verus! {

/// A call on the simulated chip, as tests see it: the handles, statuses and
/// codes that went in and came out.
#[derive(Clone, Copy, Debug, PartialEq, Eq, Structural)]
pub enum SimCall {
    ChipOpen(usize),
    ChipGetInfo(usize, usize),
    ChipInfoGetName(usize, bool),
    SettingsNew(usize),
    SettingsSetBias(usize, Bias, i32),
    SettingsSetDirection(usize, Direction, i32),
    ConfigNew(usize),
    ConfigAddSettings(usize, usize, i32),
    RequestLines(usize, usize, usize),
    RequestSetValue(usize, u32, bool, i32),
    RequestReconfigure(usize, usize, i32),
    RequestGetValue(usize, u32, i32),
    RequestRelease(usize),
    ConfigFree(usize),
    SettingsFree(usize),
    InfoFree(usize),
    ChipClose(usize),
    Clock(u64),
    Sleep(u64),
}

/// An in-memory GPIO chip for running the library without hardware.
///
/// Each capability can be told to fail. Handles are handed out from a counter,
/// so no two are alike. The line reads back `level` until the clock reaches
/// `toggle_at`; from then on it is inverted, and, when `period_us` is not
/// zero, it flips back and forth every `period_us`. The clock advances by `tick_us` at each reading
/// and by the requested duration at each sleep. Every call is appended to `log`.
pub struct SimulatedChip {
    pub name: String,
    pub open_ok: bool,
    pub info_ok: bool,
    pub name_ok: bool,
    pub settings_ok: bool,
    pub bias_ok: bool,
    pub direction_ok: bool,
    pub config_ok: bool,
    pub add_settings_ok: bool,
    pub request_ok: bool,
    pub set_value_ok: bool,
    pub reconfigure_ok: bool,
    pub get_value_ok: bool,
    pub level: bool,
    pub toggle_at: u64,
    pub period_us: u64,
    pub clock: u64,
    pub tick_us: u64,
    pub next_handle: usize,
    /// The calls made, for tests to inspect.
    pub log: Vec<SimCall>,
    /// The calls made, in full, as the backend's record.
    pub events: Ghost<Seq<BackendCall>>,
}

/// `a + b`, held at `u64::MAX`.
pub open spec fn saturating_add(a: u64, b: u64) -> u64 {
    if a as int + b as int > u64::MAX as int {
        u64::MAX
    } else {
        (a + b) as u64
    }
}

/// The value the simulated line shows at `clock`.
pub open spec fn sim_line(level: bool, toggle_at: u64, period_us: u64, clock: u64) -> bool {
    if clock < toggle_at {
        level
    } else if period_us == 0 {
        !level
    } else if ((clock - toggle_at) / period_us as int) % 2 == 0 {
        !level
    } else {
        level
    }
}

/// What a read of the simulated line returns.
pub open spec fn sim_read_code(sim: SimulatedChip) -> i32 {
    if !sim.get_value_ok {
        -1i32
    } else if sim_line(sim.level, sim.toggle_at, sim.period_us, sim.clock) {
        1i32
    } else {
        0i32
    }
}

/// The state that a read of `offset` on `request` leaves behind: the read is
/// logged and nothing else changes.
pub open spec fn read_leaves(
    before: SimulatedChip,
    after: SimulatedChip,
    request: usize,
    offset: u32,
) -> bool {
    &&& after.log@ == before.log@.push(
        SimCall::RequestGetValue(request, offset, sim_read_code(before)),
    )
    &&& after.events@ == before.events@.push(
        BackendCall::RequestGetValue(request, offset, sim_read_code(before)),
    )
    &&& after.name == before.name
    &&& after.open_ok == before.open_ok
    &&& after.info_ok == before.info_ok
    &&& after.name_ok == before.name_ok
    &&& after.settings_ok == before.settings_ok
    &&& after.bias_ok == before.bias_ok
    &&& after.direction_ok == before.direction_ok
    &&& after.config_ok == before.config_ok
    &&& after.add_settings_ok == before.add_settings_ok
    &&& after.request_ok == before.request_ok
    &&& after.set_value_ok == before.set_value_ok
    &&& after.reconfigure_ok == before.reconfigure_ok
    &&& after.get_value_ok == before.get_value_ok
    &&& after.level == before.level
    &&& after.toggle_at == before.toggle_at
    &&& after.period_us == before.period_us
    &&& after.clock == before.clock
    &&& after.tick_us == before.tick_us
    &&& after.next_handle == before.next_handle
}

/// Reading the simulated line has no effect on it: a second read that follows
/// the first, with nothing else in between, returns the same value.
pub proof fn lemma_sim_read_idempotent(
    first: SimulatedChip,
    second: SimulatedChip,
    after: SimulatedChip,
    request: usize,
    offset: u32,
)
    requires
        read_leaves(first, second, request, offset),
        read_leaves(second, after, request, offset),
    ensures
        sim_read_code(second) == sim_read_code(first),
        after.log@ == first.log@.push(
            SimCall::RequestGetValue(request, offset, sim_read_code(first)),
        ).push(SimCall::RequestGetValue(request, offset, sim_read_code(first))),
        value_outcome(sim_read_code(second)) == value_outcome(sim_read_code(first)),
{
}

impl SimulatedChip {
    /// A chip named `name` on which everything succeeds, whose line reads high
    /// and never changes, with a clock that starts at zero and ticks by one.
    pub fn new(name: String) -> (r: Self)
        ensures
            r.name@ == name@,
            r.open_ok && r.info_ok && r.name_ok && r.settings_ok && r.bias_ok && r.direction_ok,
            r.config_ok && r.add_settings_ok && r.request_ok && r.set_value_ok,
            r.reconfigure_ok && r.get_value_ok,
            r.level,
            r.toggle_at == u64::MAX,
            r.period_us == 0,
            r.clock == 0,
            r.tick_us == 1,
            r.next_handle == 1,
            r.log@.len() == 0,
            r.events@.len() == 0,
    {
        SimulatedChip {
            name,
            open_ok: true,
            info_ok: true,
            name_ok: true,
            settings_ok: true,
            bias_ok: true,
            direction_ok: true,
            config_ok: true,
            add_settings_ok: true,
            request_ok: true,
            set_value_ok: true,
            reconfigure_ok: true,
            get_value_ok: true,
            level: true,
            toggle_at: u64::MAX,
            period_us: 0,
            clock: 0,
            tick_us: 1,
            next_handle: 1,
            log: Vec::new(),
            events: Ghost(Seq::empty()),
        }
    }

    /// Hands out a fresh handle, or null when `ok` is false.
    fn acquire(&mut self, ok: bool) -> (r: usize)
        ensures
            ok && old(self).next_handle != 0 ==> r == old(self).next_handle,
            !ok ==> r == 0,
            final(self).log == old(self).log,
            final(self).events == old(self).events,
            final(self).clock == old(self).clock,
            final(self).level == old(self).level,
            final(self).toggle_at == old(self).toggle_at,
            final(self).get_value_ok == old(self).get_value_ok,
    {
        if !ok {
            return 0;
        }
        let h = self.next_handle;
        if self.next_handle < usize::MAX {
            self.next_handle = self.next_handle + 1;
        }
        h
    }

    fn advance(&mut self, duration: u64)
        ensures
            final(self).clock == saturating_add(old(self).clock, duration),
            final(self).log == old(self).log,
            final(self).events == old(self).events,
            final(self).level == old(self).level,
            final(self).toggle_at == old(self).toggle_at,
            final(self).get_value_ok == old(self).get_value_ok,
    {
        if self.clock > u64::MAX - duration {
            self.clock = u64::MAX;
        } else {
            self.clock = self.clock + duration;
        }
    }

    fn status(ok: bool) -> (r: i32)
        ensures
            r == (if ok { 0i32 } else { -1i32 }),
    {
        if ok {
            0
        } else {
            -1
        }
    }
}

impl IGpiod for SimulatedChip {
    open spec fn calls(&self) -> Seq<BackendCall> {
        self.events@
    }

    fn chip_open(&mut self, path: &str) -> (r: usize) {
        let ok = self.open_ok && !path.is_empty();
        let r = self.acquire(ok);
        self.log.push(SimCall::ChipOpen(r));
        self.events = Ghost(self.events@.push(BackendCall::ChipOpen(path@, r)));
        r
    }

    fn chip_get_info(&mut self, chip: usize) -> (r: usize) {
        let r = self.acquire(self.info_ok);
        self.log.push(SimCall::ChipGetInfo(chip, r));
        self.events = Ghost(self.events@.push(BackendCall::ChipGetInfo(chip, r)));
        r
    }

    fn chip_info_get_name(&mut self, info: usize) -> (r: Option<String>) {
        let r = if self.name_ok {
            Some(self.name.clone())
        } else {
            None
        };
        self.log.push(SimCall::ChipInfoGetName(info, self.name_ok));
        self.events = Ghost(self.events@.push(BackendCall::ChipInfoGetName(info, name_view(r))));
        r
    }

    fn line_settings_new(&mut self) -> (r: usize) {
        let r = self.acquire(self.settings_ok);
        self.log.push(SimCall::SettingsNew(r));
        self.events = Ghost(self.events@.push(BackendCall::SettingsNew(r)));
        r
    }

    fn line_settings_set_bias(&mut self, settings: usize, bias: Bias) -> (r: i32) {
        let r = Self::status(self.bias_ok);
        self.log.push(SimCall::SettingsSetBias(settings, bias, r));
        self.events = Ghost(self.events@.push(BackendCall::SettingsSetBias(settings, bias, r)));
        r
    }

    fn line_settings_set_direction(&mut self, settings: usize, direction: Direction) -> (r: i32) {
        let r = Self::status(self.direction_ok);
        self.log.push(SimCall::SettingsSetDirection(settings, direction, r));
        self.events = Ghost(self.events@.push(BackendCall::SettingsSetDirection(settings, direction, r)));
        r
    }

    fn line_config_new(&mut self) -> (r: usize) {
        let r = self.acquire(self.config_ok);
        self.log.push(SimCall::ConfigNew(r));
        self.events = Ghost(self.events@.push(BackendCall::ConfigNew(r)));
        r
    }

    fn line_config_add_settings(&mut self, config: usize, offsets: &[u32], settings: usize) -> (r:
        i32) {
        let r = Self::status(self.add_settings_ok);
        self.log.push(SimCall::ConfigAddSettings(config, settings, r));
        self.events = Ghost(self.events@.push(BackendCall::ConfigAddSettings(config, offsets@, settings, r)));
        r
    }

    fn chip_request_lines(&mut self, chip: usize, config: usize) -> (r: usize) {
        let r = self.acquire(self.request_ok);
        self.log.push(SimCall::RequestLines(chip, config, r));
        self.events = Ghost(self.events@.push(BackendCall::RequestLines(chip, config, r)));
        r
    }

    fn line_request_set_value(&mut self, request: usize, offset: u32, value: bool) -> (r: i32) {
        let r = Self::status(self.set_value_ok);
        self.log.push(SimCall::RequestSetValue(request, offset, value, r));
        self.events = Ghost(self.events@.push(BackendCall::RequestSetValue(request, offset, value, r)));
        r
    }

    fn line_request_reconfigure(&mut self, request: usize, config: usize) -> (r: i32) {
        let r = Self::status(self.reconfigure_ok);
        self.log.push(SimCall::RequestReconfigure(request, config, r));
        self.events = Ghost(self.events@.push(BackendCall::RequestReconfigure(request, config, r)));
        r
    }

    fn line_request_get_value(&mut self, request: usize, offset: u32) -> (r: i32)
        ensures
            r == sim_read_code(*old(self)),
            read_leaves(*old(self), *final(self), request, offset),
    {
        let high = if self.clock < self.toggle_at {
            self.level
        } else if self.period_us == 0 {
            !self.level
        } else if ((self.clock - self.toggle_at) / self.period_us) % 2 == 0 {
            !self.level
        } else {
            self.level
        };
        let r = if !self.get_value_ok {
            -1
        } else if high {
            1
        } else {
            0
        };
        self.log.push(SimCall::RequestGetValue(request, offset, r));
        self.events = Ghost(self.events@.push(BackendCall::RequestGetValue(request, offset, r)));
        r
    }

    fn line_request_release(&mut self, request: usize) {
        self.log.push(SimCall::RequestRelease(request));
        self.events = Ghost(self.events@.push(BackendCall::RequestRelease(request)));
    }

    fn line_config_free(&mut self, config: usize) {
        self.log.push(SimCall::ConfigFree(config));
        self.events = Ghost(self.events@.push(BackendCall::ConfigFree(config)));
    }

    fn line_settings_free(&mut self, settings: usize) {
        self.log.push(SimCall::SettingsFree(settings));
        self.events = Ghost(self.events@.push(BackendCall::SettingsFree(settings)));
    }

    fn chip_info_free(&mut self, info: usize) {
        self.log.push(SimCall::InfoFree(info));
        self.events = Ghost(self.events@.push(BackendCall::InfoFree(info)));
    }

    fn chip_close(&mut self, chip: usize) {
        self.log.push(SimCall::ChipClose(chip));
        self.events = Ghost(self.events@.push(BackendCall::ChipClose(chip)));
    }

    fn now_micros(&mut self) -> (r: u64) {
        let r = self.clock;
        let tick = self.tick_us;
        self.advance(tick);
        self.log.push(SimCall::Clock(r));
        self.events = Ghost(self.events@.push(BackendCall::Clock(r)));
        r
    }

    fn sleep_micros(&mut self, duration: u64) {
        self.advance(duration);
        self.log.push(SimCall::Sleep(duration));
        self.events = Ghost(self.events@.push(BackendCall::Sleep(duration)));
    }
}

} // verus!
