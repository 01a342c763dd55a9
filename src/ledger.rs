use vstd::prelude::*;
use crate::backend::BackendCall;
use crate::cleanup::{chip_release, config_release, info_release, release_calls, settings_release};
use crate::handles::{ChipHandle, ChipInfo, LineConfig, LineSettings};

verus! {

/// The kinds of resource that the backend hands out.
#[derive(Clone, Copy, Debug, PartialEq, Eq, Structural)]
pub enum Resource {
    Chip,
    Info,
    Settings,
    Config,
    Request,
}

/// How one call changes the number of resources of `kind` that are held: a
/// successful acquisition adds one, a release takes one away.
pub open spec fn held_delta(call: BackendCall, kind: Resource) -> int {
    match call {
        BackendCall::ChipOpen(_, h) => if kind == Resource::Chip && h != 0 { 1 } else { 0 },
        BackendCall::ChipGetInfo(_, h) => if kind == Resource::Info && h != 0 { 1 } else { 0 },
        BackendCall::SettingsNew(h) => if kind == Resource::Settings && h != 0 { 1 } else { 0 },
        BackendCall::ConfigNew(h) => if kind == Resource::Config && h != 0 { 1 } else { 0 },
        BackendCall::RequestLines(_, _, h) => if kind == Resource::Request && h != 0 { 1 } else { 0 },
        BackendCall::ChipClose(_) => if kind == Resource::Chip { -1 } else { 0 },
        BackendCall::InfoFree(_) => if kind == Resource::Info { -1 } else { 0 },
        BackendCall::SettingsFree(_) => if kind == Resource::Settings { -1 } else { 0 },
        BackendCall::ConfigFree(_) => if kind == Resource::Config { -1 } else { 0 },
        BackendCall::RequestRelease(_) => if kind == Resource::Request { -1 } else { 0 },
        _ => 0,
    }
}

/// Acquisitions minus releases of resources of `kind` over `calls`.
pub open spec fn held(calls: Seq<BackendCall>, kind: Resource) -> int
    decreases calls.len(),
{
    if calls.len() == 0 {
        0
    } else {
        held(calls.drop_last(), kind) + held_delta(calls.last(), kind)
    }
}

pub proof fn lemma_held_concat(a: Seq<BackendCall>, b: Seq<BackendCall>)
    ensures
        forall|kind: Resource| #[trigger] held(a + b, kind) == held(a, kind) + held(b, kind),
    decreases b.len(),
{
    if b.len() == 0 {
        assert(a + b =~= a);
    } else {
        lemma_held_concat(a, b.drop_last());
        assert((a + b).drop_last() =~= a + b.drop_last());
        assert((a + b).last() == b.last());
        assert forall|kind: Resource| #[trigger] held(a + b, kind) == held(a, kind) + held(b, kind) by {
            assert(held(a + b, kind) == held((a + b).drop_last(), kind) + held_delta(
                (a + b).last(),
                kind,
            ));
        }
    }
}

/// Every call changes the held counts by its own delta.
pub proof fn lemma_held_step()
    ensures
        forall|calls: Seq<BackendCall>, call: BackendCall, kind: Resource|
            #[trigger] held(calls.push(call), kind) == held(calls, kind) + held_delta(call, kind),
{
    assert forall|calls: Seq<BackendCall>, call: BackendCall, kind: Resource|
        #[trigger] held(calls.push(call), kind) == held(calls, kind) + held_delta(call, kind) by {
        assert(calls.push(call).drop_last() == calls);
    }
}

/// 1 when `present`, else 0.
pub open spec fn count(present: bool) -> int {
    if present {
        1
    } else {
        0
    }
}

/// `cleanup` gives back one resource of each kind that is present.
pub proof fn lemma_held_release(
    chip: Option<ChipHandle>,
    info: Option<ChipInfo>,
    settings: Option<LineSettings>,
    config: Option<LineConfig>,
)
    ensures
        held(release_calls(chip, info, settings, config), Resource::Chip) == -count(chip is Some),
        held(release_calls(chip, info, settings, config), Resource::Info) == -count(info is Some),
        held(release_calls(chip, info, settings, config), Resource::Settings) == -count(
            settings is Some,
        ),
        held(release_calls(chip, info, settings, config), Resource::Config) == -count(
            config is Some,
        ),
        held(release_calls(chip, info, settings, config), Resource::Request) == 0,
{
    lemma_held_step();
    let e = Seq::<BackendCall>::empty();
    let a = config_release(config);
    let b = settings_release(settings);
    let c = info_release(info);
    let d = chip_release(chip);
    if config is Some {
        assert(a =~= e.push(BackendCall::ConfigFree(config->Some_0.raw)));
    } else {
        assert(a =~= e);
    }
    if settings is Some {
        assert(b =~= e.push(BackendCall::SettingsFree(settings->Some_0.raw)));
    } else {
        assert(b =~= e);
    }
    if info is Some {
        assert(c =~= e.push(BackendCall::InfoFree(info->Some_0.raw)));
    } else {
        assert(c =~= e);
    }
    if chip is Some {
        assert(d =~= e.push(BackendCall::ChipClose(chip->Some_0.raw)));
    } else {
        assert(d =~= e);
    }
    lemma_held_concat(a, b);
    lemma_held_concat(a + b, c);
    lemma_held_concat(a + b + c, d);
}

/// Change of the held counts from `before` to `after`, one kind at a time.
pub open spec fn held_changed_by(
    before: Seq<BackendCall>,
    after: Seq<BackendCall>,
    chip: int,
    info: int,
    settings: int,
    config: int,
    request: int,
) -> bool {
    &&& held(after, Resource::Chip) == held(before, Resource::Chip) + chip
    &&& held(after, Resource::Info) == held(before, Resource::Info) + info
    &&& held(after, Resource::Settings) == held(before, Resource::Settings) + settings
    &&& held(after, Resource::Config) == held(before, Resource::Config) + config
    &&& held(after, Resource::Request) == held(before, Resource::Request) + request
}

} // verus!
