use vstd::prelude::*;
use crate::backend::{BackendCall, IGpiod};
use crate::gpiod::Gpiod;
use crate::handles::{ChipHandle, ChipInfo, LineConfig, LineSettings};
use crate::ledger::{count, held_changed_by, lemma_held_concat, lemma_held_release};

verus! {

pub open spec fn config_release(config: Option<LineConfig>) -> Seq<BackendCall> {
    match config {
        Some(c) => seq![BackendCall::ConfigFree(c.raw)],
        None => seq![],
    }
}

pub open spec fn settings_release(settings: Option<LineSettings>) -> Seq<BackendCall> {
    match settings {
        Some(s) => seq![BackendCall::SettingsFree(s.raw)],
        None => seq![],
    }
}

pub open spec fn info_release(info: Option<ChipInfo>) -> Seq<BackendCall> {
    match info {
        Some(i) => seq![BackendCall::InfoFree(i.raw)],
        None => seq![],
    }
}

pub open spec fn chip_release(chip: Option<ChipHandle>) -> Seq<BackendCall> {
    match chip {
        Some(c) => seq![BackendCall::ChipClose(c.raw)],
        None => seq![],
    }
}

/// The release calls that `cleanup` makes: one for each present resource,
/// config first, then settings, then info, then chip.
pub open spec fn release_calls(
    chip: Option<ChipHandle>,
    info: Option<ChipInfo>,
    settings: Option<LineSettings>,
    config: Option<LineConfig>,
) -> Seq<BackendCall> {
    config_release(config) + settings_release(settings) + info_release(info) + chip_release(chip)
}

/// Position of a release call in the fixed release order; calls that release
/// nothing come after all of them.
pub open spec fn release_rank(call: BackendCall) -> int {
    match call {
        BackendCall::ConfigFree(_) => 0,
        BackendCall::SettingsFree(_) => 1,
        BackendCall::InfoFree(_) => 2,
        BackendCall::ChipClose(_) => 3,
        _ => 4,
    }
}

/// Whether `call` releases one of the present resources.
pub open spec fn releases_one_of(
    call: BackendCall,
    chip: Option<ChipHandle>,
    info: Option<ChipInfo>,
    settings: Option<LineSettings>,
    config: Option<LineConfig>,
) -> bool {
    match call {
        BackendCall::ConfigFree(raw) => config is Some && config->Some_0.raw == raw,
        BackendCall::SettingsFree(raw) => settings is Some && settings->Some_0.raw == raw,
        BackendCall::InfoFree(raw) => info is Some && info->Some_0.raw == raw,
        BackendCall::ChipClose(raw) => chip is Some && chip->Some_0.raw == raw,
        _ => false,
    }
}

/// Releases the resources that are present, in the reverse of the order in
/// which they are acquired: config, settings, info, chip. Absent ones are
/// skipped. The handles are consumed, so none of them can be released twice.
pub fn cleanup<B: IGpiod>(
    gpiod: &mut Gpiod<B>,
    chip: Option<ChipHandle>,
    info: Option<ChipInfo>,
    settings: Option<LineSettings>,
    config: Option<LineConfig>,
)
    ensures
        final(gpiod).backend.calls() == old(gpiod).backend.calls() + release_calls(
            chip,
            info,
            settings,
            config,
        ),
        held_changed_by(
            old(gpiod).backend.calls(),
            final(gpiod).backend.calls(),
            -count(chip is Some),
            -count(info is Some),
            -count(settings is Some),
            -count(config is Some),
            0,
        ),
{
    let ghost start = gpiod.backend.calls();
    if let Some(c) = config {
        gpiod.free_config(c);
    }
    assert(gpiod.backend.calls() =~= start + config_release(config));
    if let Some(s) = settings {
        gpiod.free_settings(s);
    }
    assert(gpiod.backend.calls() =~= start + config_release(config) + settings_release(settings));
    if let Some(i) = info {
        gpiod.free_info(i);
    }
    assert(gpiod.backend.calls() =~= start + config_release(config) + settings_release(settings)
        + info_release(info));
    if let Some(c) = chip {
        gpiod.close_chip(c);
    }
    assert(gpiod.backend.calls() =~= start + release_calls(chip, info, settings, config));
    proof {
        lemma_held_release(chip, info, settings, config);
        lemma_held_concat(start, release_calls(chip, info, settings, config));
    }
}

/// With all four resources present, `cleanup` makes exactly one release call
/// for each, in the order config, settings, info, chip.
pub proof fn lemma_cleanup_all_present(
    chip: ChipHandle,
    info: ChipInfo,
    settings: LineSettings,
    config: LineConfig,
)
    ensures
        release_calls(Some(chip), Some(info), Some(settings), Some(config)) == seq![
            BackendCall::ConfigFree(config.raw),
            BackendCall::SettingsFree(settings.raw),
            BackendCall::InfoFree(info.raw),
            BackendCall::ChipClose(chip.raw),
        ],
{
    assert(release_calls(Some(chip), Some(info), Some(settings), Some(config)) =~= seq![
        BackendCall::ConfigFree(config.raw),
        BackendCall::SettingsFree(settings.raw),
        BackendCall::InfoFree(info.raw),
        BackendCall::ChipClose(chip.raw),
    ]);
}

/// With no resource present, `cleanup` makes no call at all.
pub proof fn lemma_cleanup_none_present()
    ensures
        release_calls(None, None, None, None) == Seq::<BackendCall>::empty(),
{
    assert(release_calls(None, None, None, None) =~= Seq::<BackendCall>::empty());
}

/// For any mix of present and absent resources, `cleanup` releases each
/// present one, releases nothing else, makes at most one call of each kind and
/// keeps the order config, settings, info, chip.
pub proof fn lemma_cleanup_releases_present_in_order(
    chip: Option<ChipHandle>,
    info: Option<ChipInfo>,
    settings: Option<LineSettings>,
    config: Option<LineConfig>,
)
    ensures
        ({
            let calls = release_calls(chip, info, settings, config);
            &&& forall|i: int|
                0 <= i < calls.len() ==> #[trigger] releases_one_of(
                    calls[i],
                    chip,
                    info,
                    settings,
                    config,
                )
            &&& forall|i: int, j: int|
                0 <= i < j < calls.len() ==> release_rank(calls[i]) < release_rank(calls[j])
            &&& config is Some ==> calls.contains(BackendCall::ConfigFree(config->Some_0.raw))
            &&& settings is Some ==> calls.contains(
                BackendCall::SettingsFree(settings->Some_0.raw),
            )
            &&& info is Some ==> calls.contains(BackendCall::InfoFree(info->Some_0.raw))
            &&& chip is Some ==> calls.contains(BackendCall::ChipClose(chip->Some_0.raw))
        }),
{
    let a = config_release(config);
    let b = settings_release(settings);
    let c = info_release(info);
    let d = chip_release(chip);
    let calls = release_calls(chip, info, settings, config);
    assert(calls == a + b + c + d);
    assert forall|i: int| 0 <= i < calls.len() implies #[trigger] releases_one_of(
        calls[i],
        chip,
        info,
        settings,
        config,
    ) && 0 <= release_rank(calls[i]) <= 3 && (release_rank(calls[i]) == 0 ==> i < a.len()) && (
    release_rank(calls[i]) == 1 ==> a.len() <= i < a.len() + b.len()) && (release_rank(calls[i])
        == 2 ==> a.len() + b.len() <= i < a.len() + b.len() + c.len()) && (release_rank(calls[i])
        == 3 ==> a.len() + b.len() + c.len() <= i) by {
        if i < a.len() {
            assert(calls[i] == a[i]);
        } else if i < a.len() + b.len() {
            assert(calls[i] == b[i - a.len()]);
        } else if i < a.len() + b.len() + c.len() {
            assert(calls[i] == c[i - a.len() - b.len()]);
        } else {
            assert(calls[i] == d[i - a.len() - b.len() - c.len()]);
        }
    }
    if config is Some {
        assert(calls[0] == BackendCall::ConfigFree(config->Some_0.raw));
    }
    if settings is Some {
        assert(calls[a.len() as int] == BackendCall::SettingsFree(settings->Some_0.raw));
    }
    if info is Some {
        assert(calls[(a.len() + b.len()) as int] == BackendCall::InfoFree(info->Some_0.raw));
    }
    if chip is Some {
        assert(calls[(a.len() + b.len() + c.len()) as int] == BackendCall::ChipClose(chip->Some_0.raw));
    }
}

} // verus!
