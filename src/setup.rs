use vstd::prelude::*;
use crate::plan::{builder_plugins_spec, Platform, Plugin};

verus! {

/// Base64 text of the minisign public key that update signatures are
/// checked against.
pub const UPDATER_PUBKEY: &'static str = "dW50cnVzdGVkIGNvbW1lbnQ6IG1pbmlzaWduIHB1YmxpYyBrZXk6IDM5MjdFRjVDRjE4N0ZBNjUKUlVSbCtvZnhYTzhuT1pyV2d0OXFXOVN5UXhlS1dmNVdiTURBVU0rZGFtS0JLejdhZk1zTUtyTVMK";

/// The plugins attached from the setup hook, once the application exists:
/// the auto-updater on desktop targets, nothing on mobile ones.
pub open spec fn setup_plugins_spec(platform: Platform) -> Seq<Plugin> {
    match platform {
        Platform::Desktop => seq![Plugin::Updater { pubkey: UPDATER_PUBKEY }],
        Platform::Mobile => seq![],
    }
}

/// Plugins attached from the setup hook on `platform`, in order.
pub fn setup_plugins(platform: Platform) -> (r: Vec<Plugin>)
    ensures
        r@ == setup_plugins_spec(platform),
{
    let mut r: Vec<Plugin> = Vec::new();
    match platform {
        Platform::Desktop => {
            r.push(Plugin::Updater { pubkey: UPDATER_PUBKEY });
        },
        Platform::Mobile => {},
    }
    assert(r@ =~= setup_plugins_spec(platform));
    r
}

/// What the setup hook does next.
#[derive(Clone, Copy, Debug)]
pub enum SetupAction {
    /// Attach this plugin to the running application.
    Register(Plugin),
    /// Every plugin is attached: setup succeeded.
    Finish,
    /// An attachment failed: setup fails with that error.
    Abort,
}

/// The action the setup hook takes after `registered` plugins of
/// `setup_plugins_spec(platform)` were attached, `last_failed` telling
/// whether the latest attempt failed.
pub open spec fn setup_step_spec(platform: Platform, registered: nat, last_failed: bool) -> SetupAction {
    let plugins = setup_plugins_spec(platform);
    if last_failed {
        SetupAction::Abort
    } else if registered < plugins.len() {
        SetupAction::Register(plugins[registered as int])
    } else {
        SetupAction::Finish
    }
}

/// Decides the setup hook's next action: a failed attachment aborts setup at
/// once, otherwise the next pending plugin is attached, and once none is
/// left setup finishes.
pub fn setup_step(platform: Platform, registered: usize, last_failed: bool) -> (r: SetupAction)
    ensures
        r == setup_step_spec(platform, registered as nat, last_failed),
{
    if last_failed {
        return SetupAction::Abort;
    }
    let plugins = setup_plugins(platform);
    if registered < plugins.len() {
        SetupAction::Register(plugins[registered])
    } else {
        SetupAction::Finish
    }
}

/// Driven from the start without a failure, the setup hook attaches each
/// setup plugin once, in order, and then finishes.
pub proof fn lemma_setup_attaches_in_order(platform: Platform)
    ensures
        forall|i: nat|
            i < setup_plugins_spec(platform).len() ==> #[trigger] setup_step_spec(platform, i, false)
                == SetupAction::Register(setup_plugins_spec(platform)[i as int]),
        setup_step_spec(platform, setup_plugins_spec(platform).len(), false) == SetupAction::Finish,
{
}

/// A failed attachment aborts setup, whatever was attached before it.
pub proof fn lemma_failure_aborts(platform: Platform, registered: nat)
    ensures
        setup_step_spec(platform, registered, true) == SetupAction::Abort,
{
}

/// The auto-updater is never attached by the builder, and the setup hook
/// attaches it exactly on desktop targets, with the embedded key.
pub proof fn lemma_updater_only_on_desktop(platform: Platform)
    ensures
        forall|i: int|
            0 <= i < builder_plugins_spec().len() ==> !(#[trigger] builder_plugins_spec()[i] is Updater),
        (exists|i: int|
            0 <= i < setup_plugins_spec(platform).len()
                && #[trigger] setup_plugins_spec(platform)[i] == (Plugin::Updater { pubkey: UPDATER_PUBKEY }))
            <==> platform == Platform::Desktop,
        forall|i: int|
            0 <= i < setup_plugins_spec(platform).len() && #[trigger] setup_plugins_spec(platform)[i] is Updater
                ==> setup_plugins_spec(platform)[i] == (Plugin::Updater { pubkey: UPDATER_PUBKEY }),
{
    if platform == Platform::Desktop {
        assert(setup_plugins_spec(platform)[0] == (Plugin::Updater { pubkey: UPDATER_PUBKEY }));
    }
}

/// Message the process stops with when the application's run loop cannot
/// start.
pub const RUN_FAILURE_MESSAGE: &'static str = "error while running tauri application";

} // verus!
