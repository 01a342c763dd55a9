use vstd::prelude::*;
use crate::backend::{BackendCall, IGpiod};
use crate::error::GpiodError;
use crate::gpiod::Gpiod;
use crate::handles::LineRequest;
use crate::ledger::{held_changed_by, lemma_held_step};

verus! {

/// Where one poll of the line leaves the measurement.
#[derive(Clone, Copy, Debug, PartialEq, Eq, Structural)]
pub enum PollOutcome {
    /// The line still holds the expected value and time is left.
    Pending,
    /// The line left the expected value this many microseconds after the
    /// start, within the deadline.
    Pulse(u64),
    /// The deadline passed before the line was seen to leave the expected value.
    TimedOut,
}

/// Line and timing of a pulse measurement.
#[derive(Clone, Copy, Debug)]
pub struct PulseConfig {
    /// The line that is polled.
    pub offset: u32,
    /// How long the line may keep its value, in microseconds.
    pub timeout_us: u64,
    /// How many reads are made at most, so that a clock that stops cannot
    /// hold the caller forever. Running out counts as a timeout.
    pub max_polls: u64,
}

pub open spec fn poll_outcome(expected: bool, value: bool, elapsed: u64, timeout: u64) -> PollOutcome {
    if elapsed > timeout {
        PollOutcome::TimedOut
    } else if value != expected {
        PollOutcome::Pulse(elapsed)
    } else {
        PollOutcome::Pending
    }
}

/// Decides one poll: past the deadline (`elapsed > timeout`) the pulse has
/// timed out, whatever the value; before it, a value other than `expected`
/// ends the pulse.
pub fn judge_poll(expected: bool, value: bool, elapsed_us: u64, timeout_us: u64) -> (r:
    PollOutcome)
    ensures
        r == poll_outcome(expected, value, elapsed_us, timeout_us),
{
    if elapsed_us > timeout_us {
        PollOutcome::TimedOut
    } else if value != expected {
        PollOutcome::Pulse(elapsed_us)
    } else {
        PollOutcome::Pending
    }
}

/// Microseconds from `start` to `now`; a clock reading before `start` counts
/// as no time at all.
pub open spec fn elapsed_since(start: u64, now: u64) -> u64 {
    if now >= start {
        (now - start) as u64
    } else {
        0
    }
}

/// The calls of successful polls: each read gave `sample.0` and the clock then
/// gave `sample.1`.
pub open spec fn poll_calls(request: usize, offset: u32, samples: Seq<(i32, u64)>) -> Seq<
    BackendCall,
>
    decreases samples.len(),
{
    if samples.len() == 0 {
        seq![]
    } else {
        poll_calls(request, offset, samples.drop_last()) + seq![
            BackendCall::RequestGetValue(request, offset, samples.last().0),
            BackendCall::Clock(samples.last().1),
        ]
    }
}

/// What a successful poll decides.
pub open spec fn sample_outcome(
    expected: bool,
    timeout: u64,
    start: u64,
    sample: (i32, u64),
) -> PollOutcome {
    poll_outcome(expected, sample.0 == 1, elapsed_since(start, sample.1), timeout)
}

/// Every poll read the line and left the measurement pending.
pub open spec fn all_pending(
    expected: bool,
    timeout: u64,
    start: u64,
    samples: Seq<(i32, u64)>,
) -> bool {
    forall|i: int|
        0 <= i < samples.len() ==> samples[i].0 != -1 && #[trigger] sample_outcome(
            expected,
            timeout,
            start,
            samples[i],
        ) == PollOutcome::Pending
}

/// `trace` is what a measurement makes: a clock reading `start`, the polls
/// `samples`, and `tail`; and it ends in `r`.
pub open spec fn pulse_trace_from(
    request: usize,
    expected: bool,
    config: PulseConfig,
    start: u64,
    samples: Seq<(i32, u64)>,
    tail: Seq<BackendCall>,
    trace: Seq<BackendCall>,
    r: Result<u64, GpiodError>,
) -> bool {
    let earlier = samples.drop_last();
    let last_outcome = sample_outcome(expected, config.timeout_us, start, samples.last());
    &&& trace == seq![BackendCall::Clock(start)] + poll_calls(request, config.offset, samples)
        + tail
    &&& samples.len() <= config.max_polls
    &&& match r {
        Ok(t) => {
            &&& tail.len() == 0
            &&& samples.len() > 0
            &&& samples.last().0 != -1
            &&& all_pending(expected, config.timeout_us, start, earlier)
            &&& last_outcome == PollOutcome::Pulse(t)
        },
        Err(GpiodError::Timeout) => {
            &&& tail.len() == 0
            &&& {
                ||| (samples.len() > 0 && samples.last().0 != -1 && all_pending(
                    expected,
                    config.timeout_us,
                    start,
                    earlier,
                ) && last_outcome == PollOutcome::TimedOut)
                ||| (samples.len() == config.max_polls && all_pending(
                    expected,
                    config.timeout_us,
                    start,
                    samples,
                ))
            }
        },
        Err(GpiodError::LineRequestGetValue) => {
            &&& tail == seq![BackendCall::RequestGetValue(request, config.offset, -1i32)]
            &&& all_pending(expected, config.timeout_us, start, samples)
        },
        Err(_) => false,
    }
}

/// `trace` is the run of a measurement on `request` that ended in `r`.
pub open spec fn pulse_trace(
    request: usize,
    expected: bool,
    config: PulseConfig,
    trace: Seq<BackendCall>,
    r: Result<u64, GpiodError>,
) -> bool {
    exists|start: u64, samples: Seq<(i32, u64)>, tail: Seq<BackendCall>|
        #[trigger] pulse_trace_from(request, expected, config, start, samples, tail, trace, r)
}

/// Polls the line at `config.offset` of `request` until it leaves `expected`,
/// and returns the time that took, in microseconds from the first clock
/// reading.
///
/// The result is `Ok(t)` with `t <= config.timeout_us` for the first poll that
/// sees the change; `Err(Timeout)` once a poll finds the deadline passed (or
/// after `config.max_polls` reads) with no change seen before; and the read's
/// error when a read fails.
pub fn expect_pulse<B: IGpiod>(
    gpiod: &mut Gpiod<B>,
    expected: bool,
    request: &LineRequest,
    config: PulseConfig,
) -> (r: Result<u64, GpiodError>)
    ensures
        request.raw == 0 ==> r == Err::<u64, GpiodError>(GpiodError::NullPtr)
            && final(gpiod).backend.calls() == old(gpiod).backend.calls(),
        request.raw != 0 ==> exists|trace: Seq<BackendCall>|
            final(gpiod).backend.calls() == old(gpiod).backend.calls() + trace
                && #[trigger] pulse_trace(request.raw, expected, config, trace, r),
        r is Ok ==> r->Ok_0 <= config.timeout_us,
        held_changed_by(old(gpiod).backend.calls(), final(gpiod).backend.calls(), 0, 0, 0, 0, 0),
{
    proof {
        lemma_held_step();
    }
    if request.is_null() {
        return Err(GpiodError::NullPtr);
    }
    let ghost before = gpiod.backend.calls();
    let start = gpiod.now_micros();
    let ghost mut samples: Seq<(i32, u64)> = seq![];
    let mut polls: u64 = 0;
    assert(gpiod.backend.calls() =~= before + seq![BackendCall::Clock(start)] + poll_calls(
        request.raw,
        config.offset,
        samples,
    ));
    while polls < config.max_polls
        invariant
            request.raw != 0,
            before == old(gpiod).backend.calls(),
            held_changed_by(before, gpiod.backend.calls(), 0, 0, 0, 0, 0),
            polls == samples.len(),
            polls <= config.max_polls,
            gpiod.backend.calls() == before + seq![BackendCall::Clock(start)] + poll_calls(
                request.raw,
                config.offset,
                samples,
            ),
            all_pending(expected, config.timeout_us, start, samples),
        decreases config.max_polls - polls,
    {
        proof {
            lemma_held_step();
        }
        let ghost prev = gpiod.backend.calls();
        let read = gpiod.line_request_get_value(request, config.offset);
        let ghost code = gpiod.backend.calls().last()->RequestGetValue_2;
        assert(gpiod.backend.calls() == prev.push(
            BackendCall::RequestGetValue(request.raw, config.offset, code),
        ));
        let value = match read {
            Ok(v) => v,
            Err(e) => {
                let ghost tail = seq![BackendCall::RequestGetValue(request.raw, config.offset, -1i32)];
                let ghost trace = seq![BackendCall::Clock(start)] + poll_calls(
                    request.raw,
                    config.offset,
                    samples,
                ) + tail;
                assert(gpiod.backend.calls() =~= before + trace);
                assert(pulse_trace_from(
                    request.raw,
                    expected,
                    config,
                    start,
                    samples,
                    tail,
                    trace,
                    Err(e),
                ));
                assert(pulse_trace(request.raw, expected, config, trace, Err(e)));
                return Err(e);
            },
        };
        let now = gpiod.now_micros();
        let elapsed = if now >= start {
            now - start
        } else {
            0
        };
        let outcome = judge_poll(expected, value, elapsed, config.timeout_us);
        let ghost sample = (code, now);
        let ghost next = samples.push(sample);
        let ghost trace = seq![BackendCall::Clock(start)] + poll_calls(
            request.raw,
            config.offset,
            next,
        ) + seq![];
        assert(next.drop_last() == samples);
        assert(gpiod.backend.calls() =~= before + trace);
        assert(sample_outcome(expected, config.timeout_us, start, sample) == outcome);
        match outcome {
            PollOutcome::Pulse(t) => {
                assert(pulse_trace_from(
                    request.raw,
                    expected,
                    config,
                    start,
                    next,
                    seq![],
                    trace,
                    Ok(t),
                ));
                assert(pulse_trace(request.raw, expected, config, trace, Ok(t)));
                return Ok(t);
            },
            PollOutcome::TimedOut => {
                assert(pulse_trace_from(
                    request.raw,
                    expected,
                    config,
                    start,
                    next,
                    seq![],
                    trace,
                    Err(GpiodError::Timeout),
                ));
                assert(pulse_trace(request.raw, expected, config, trace, Err(GpiodError::Timeout)));
                return Err(GpiodError::Timeout);
            },
            PollOutcome::Pending => {},
        }
        proof {
            assert forall|i: int| 0 <= i < next.len() implies next[i].0 != -1
                && #[trigger] sample_outcome(expected, config.timeout_us, start, next[i])
                == PollOutcome::Pending by {
                if i < samples.len() {
                    assert(next[i] == samples[i]);
                }
            }
            samples = next;
        }
        polls = polls + 1;
        assert(gpiod.backend.calls() =~= before + seq![BackendCall::Clock(start)] + poll_calls(
            request.raw,
            config.offset,
            samples,
        ));
    }
    let ghost trace = seq![BackendCall::Clock(start)] + poll_calls(
        request.raw,
        config.offset,
        samples,
    ) + seq![];
    assert(gpiod.backend.calls() =~= before + trace);
    assert(pulse_trace_from(
        request.raw,
        expected,
        config,
        start,
        samples,
        seq![],
        trace,
        Err(GpiodError::Timeout),
    ));
    assert(pulse_trace(request.raw, expected, config, trace, Err(GpiodError::Timeout)));
    Err(GpiodError::Timeout)
}

/// A poll that sees the line leave `expected` at `t` microseconds, within the
/// deadline, ends the measurement with `Ok(t)`.
pub proof fn lemma_pulse_seen_in_window(
    request: usize,
    expected: bool,
    config: PulseConfig,
    start: u64,
    samples: Seq<(i32, u64)>,
    tail: Seq<BackendCall>,
    trace: Seq<BackendCall>,
    r: Result<u64, GpiodError>,
    i: int,
)
    requires
        pulse_trace_from(request, expected, config, start, samples, tail, trace, r),
        0 <= i < samples.len(),
        samples[i].0 != -1,
        (samples[i].0 == 1) != expected,
        elapsed_since(start, samples[i].1) <= config.timeout_us,
    ensures
        i == samples.len() - 1,
        r == Ok::<u64, GpiodError>(elapsed_since(start, samples[i].1)),
{
    let earlier = samples.drop_last();
    if i < samples.len() - 1 {
        // An earlier poll that saw the change would have ended the run.
        assert(earlier[i] == samples[i]);
        assert(sample_outcome(expected, config.timeout_us, start, earlier[i])
            != PollOutcome::Pending);
    }
}

/// When every poll reads `expected`, a measurement that was not cut short by a
/// failed read ends in `Timeout`.
pub proof fn lemma_pulse_no_change_times_out(
    request: usize,
    expected: bool,
    config: PulseConfig,
    start: u64,
    samples: Seq<(i32, u64)>,
    tail: Seq<BackendCall>,
    trace: Seq<BackendCall>,
    r: Result<u64, GpiodError>,
)
    requires
        pulse_trace_from(request, expected, config, start, samples, tail, trace, r),
        forall|i: int| 0 <= i < samples.len() ==> (#[trigger] samples[i].0 == 1) == expected,
        r != Err::<u64, GpiodError>(GpiodError::LineRequestGetValue),
    ensures
        r == Err::<u64, GpiodError>(GpiodError::Timeout),
{
    if r is Ok {
        assert(samples[samples.len() - 1].0 == 1 <==> expected);
    }
}

} // verus!
