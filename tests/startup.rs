use app_shell::plan::{builder_plugins, LogLevel, Platform, Plugin};
use app_shell::setup::{setup_plugins, setup_step, SetupAction, RUN_FAILURE_MESSAGE, UPDATER_PUBKEY};

const KEY: &str = "dW50cnVzdGVkIGNvbW1lbnQ6IG1pbmlzaWduIHB1YmxpYyBrZXk6IDM5MjdFRjVDRjE4N0ZBNjUKUlVSbCtvZnhYTzhuT1pyV2d0OXFXOVN5UXhlS1dmNVdiTURBVU0rZGFtS0JLejdhZk1zTUtyTVMK";

#[test]
fn builder_registers_process_dialog_then_log() {
    let plugins = builder_plugins();
    assert_eq!(plugins.len(), 3);
    assert!(matches!(plugins[0], Plugin::Process));
    assert!(matches!(plugins[1], Plugin::Dialog));
    assert!(matches!(plugins[2], Plugin::Log { level: LogLevel::Info }));
}

#[test]
fn builder_never_registers_updater() {
    assert!(builder_plugins().iter().all(|p| !matches!(p, Plugin::Updater { .. })));
}

#[test]
fn desktop_setup_attaches_updater_with_key() {
    let plugins = setup_plugins(Platform::Desktop);
    assert_eq!(plugins.len(), 1);
    match plugins[0] {
        Plugin::Updater { pubkey } => assert_eq!(pubkey, KEY),
        other => panic!("unexpected plugin {:?}", other),
    }
}

#[test]
fn mobile_setup_attaches_nothing() {
    assert!(setup_plugins(Platform::Mobile).is_empty());
}

#[test]
fn updater_key_is_embedded_verbatim() {
    assert_eq!(UPDATER_PUBKEY, KEY);
}

#[test]
fn desktop_setup_steps_register_then_finish() {
    match setup_step(Platform::Desktop, 0, false) {
        SetupAction::Register(Plugin::Updater { pubkey }) => assert_eq!(pubkey, KEY),
        other => panic!("unexpected action {:?}", other),
    }
    assert!(matches!(setup_step(Platform::Desktop, 1, false), SetupAction::Finish));
}

#[test]
fn mobile_setup_finishes_at_once() {
    assert!(matches!(setup_step(Platform::Mobile, 0, false), SetupAction::Finish));
}

#[test]
fn failed_attachment_aborts_setup() {
    assert!(matches!(setup_step(Platform::Desktop, 0, true), SetupAction::Abort));
    assert!(matches!(setup_step(Platform::Desktop, 1, true), SetupAction::Abort));
    assert!(matches!(setup_step(Platform::Mobile, 0, true), SetupAction::Abort));
}

#[test]
fn steps_past_the_end_finish() {
    assert!(matches!(setup_step(Platform::Desktop, usize::MAX, false), SetupAction::Finish));
    assert!(matches!(setup_step(Platform::Mobile, 7, false), SetupAction::Finish));
}

#[test]
fn run_failure_message_text() {
    assert_eq!(RUN_FAILURE_MESSAGE, "error while running tauri application");
}
