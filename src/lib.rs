//! Checked access to a GPIO character device and the timed acknowledgement
//! exchange of a single-wire humidity/temperature sensor.
//!
//! The raw device calls sit behind the [`IGpiod`] backend trait, of which
//! nothing is assumed. Everything built on top of it is verified: handle
//! validation and error mapping ([`Gpiod`]), the release order of acquired
//! resources ([`cleanup`]), the bounded pulse measurement ([`expect_pulse`])
//! and the whole wake-and-listen exchange ([`read_ack_pulses`]), which leaves
//! no resource behind on any path.

mod backend;
mod cleanup;
mod error;
mod gpiod;
mod handles;
mod ledger;
mod protocol;
mod pulse;
mod sim;

pub use backend::{name_view, BackendCall, IGpiod};
pub use cleanup::{
    chip_release, cleanup, config_release, info_release, lemma_cleanup_all_present,
    lemma_cleanup_none_present, lemma_cleanup_releases_present_in_order, release_calls,
    release_rank, releases_one_of, settings_release,
};
pub use error::{Bias, Direction, GpiodError};
pub use gpiod::{
    chip_outcome, config_outcome, info_outcome, name_outcome, name_view_of, request_outcome,
    settings_outcome, status_outcome, valid_offsets, value_outcome, Gpiod,
};
pub use handles::{ChipHandle, ChipInfo, LineConfig, LineRequest, LineSettings};
pub use ledger::{
    count, held, held_changed_by, held_delta, lemma_held_concat, lemma_held_release,
    lemma_held_step, Resource,
};
pub use protocol::{
    ack_calls, ack_exchange, ack_measured, ack_result, ack_view, bias_failed, chip_of, claim_calls,
    claim_line, claim_result, lemma_exchange_refused_path, lemma_exchange_settings_refused, claim_view, config_of, info_of, measure_ack, measure_calls,
    measure_result, no_answers, prepare_calls, prepare_line, prepare_result, pulse_config_of,
    raw_pair, reaches_pulses, read_ack_pulses, settings_of, AckAnswers, AckPulses, PrepAnswers,
    SensorConfig,
};
pub use pulse::{
    all_pending, elapsed_since, expect_pulse, judge_poll, lemma_pulse_no_change_times_out,
    lemma_pulse_seen_in_window, poll_calls, poll_outcome,
    pulse_trace, pulse_trace_from, sample_outcome, PollOutcome, PulseConfig,
};
pub use sim::{
    lemma_sim_read_idempotent, read_leaves, saturating_add, sim_line, sim_read_code, SimCall,
    SimulatedChip,
};
