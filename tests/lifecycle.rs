use desktop_shell::lifecycle::{plugins, Action, Event, Lifecycle, Phase, Plugin};
use desktop_shell::webview::{AUTOFILL_SCRIPT, MAIN_WINDOW};

#[test]
fn plugins_in_registration_order() {
    assert_eq!(
        plugins(),
        vec![Plugin::Opener, Plugin::Updater, Plugin::Process, Plugin::Notification]
    );
}

#[test]
fn new_lifecycle_not_started() {
    let l = Lifecycle::new();
    assert_eq!(l.phase(), Phase::NotStarted);
    assert_eq!(l.injections(), 0);
}

#[test]
fn start_with_window_injects_and_runs() {
    let mut l = Lifecycle::new();
    assert_eq!(l.step(Event::Launch), Action::Nothing);
    assert_eq!(l.phase(), Phase::SetupPending);
    assert_eq!(l.step(Event::Setup { window_found: true }), Action::InjectScript);
    assert_eq!(l.phase(), Phase::Running);
    assert_eq!(l.injections(), 1);
}

#[test]
fn start_without_main_window_still_runs() {
    let mut l = Lifecycle::new();
    assert_eq!(l.step(Event::Launch), Action::Nothing);
    assert_eq!(l.step(Event::Setup { window_found: false }), Action::Nothing);
    assert_eq!(l.phase(), Phase::Running);
    assert_eq!(l.injections(), 0);
}

#[test]
fn failed_script_evaluation_still_runs() {
    let mut l = Lifecycle::new();
    l.step(Event::Launch);
    assert_eq!(l.step(Event::Setup { window_found: true }), Action::InjectScript);
    assert_eq!(l.step(Event::ScriptEvaluated { ok: false }), Action::Nothing);
    assert_eq!(l.phase(), Phase::Running);
}

#[test]
fn window_reshown_does_not_inject_again() {
    let mut l = Lifecycle::new();
    l.step(Event::Launch);
    assert_eq!(l.step(Event::Setup { window_found: true }), Action::InjectScript);
    for _ in 0..3 {
        assert_eq!(l.step(Event::WindowShown), Action::Nothing);
        assert_eq!(l.step(Event::Setup { window_found: true }), Action::Nothing);
    }
    assert_eq!(l.injections(), 1);
}

#[test]
fn setup_before_launch_is_ignored() {
    let mut l = Lifecycle::new();
    assert_eq!(l.step(Event::Setup { window_found: true }), Action::Nothing);
    assert_eq!(l.phase(), Phase::NotStarted);
    assert_eq!(l.injections(), 0);
}

#[test]
fn run_failure_aborts() {
    let mut l = Lifecycle::new();
    l.step(Event::Launch);
    assert_eq!(l.step(Event::RunFailed), Action::Abort);
    assert_eq!(l.phase(), Phase::Terminated);
    assert_eq!(l.step(Event::RunFailed), Action::Nothing);
}

#[test]
fn close_terminates_running_application() {
    let mut l = Lifecycle::new();
    l.step(Event::Launch);
    l.step(Event::Setup { window_found: false });
    assert_eq!(l.step(Event::Closed), Action::Nothing);
    assert_eq!(l.phase(), Phase::Terminated);
}

#[test]
fn script_targets_main_window() {
    assert_eq!(MAIN_WINDOW, "main");
    assert!(AUTOFILL_SCRIPT.contains("sessionStorage.clear()"));
    assert!(AUTOFILL_SCRIPT.contains("MutationObserver"));
    assert!(AUTOFILL_SCRIPT.contains("setAttribute('autocomplete', 'off')"));
}
