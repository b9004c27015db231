use launcher::instance::{second_instance_message, second_instance_message_from};
use launcher::platform::{registers_deep_links, Platform};
use launcher::plugins::{plugins_in_order, Plugin};
use launcher::startup::{exit_after_run, run_failure_message, Exit};

#[test]
fn second_instance_line_lists_arguments() {
    let argv = vec!["app".to_string(), "myapp://open?id=7".to_string()];
    let line = second_instance_message(&argv);
    assert_eq!(
        line,
        "a new app instance was opened with [\"app\", \"myapp://open?id=7\"] and the deep link event was already triggered"
    );
    assert!(line.starts_with("a new app instance was opened with "));
    assert!(line.ends_with(" and the deep link event was already triggered"));
}

#[test]
fn second_instance_line_escapes_quotes() {
    let argv = vec!["say \"hi\"".to_string()];
    let line = second_instance_message(&argv);
    assert_eq!(
        line,
        "a new app instance was opened with [\"say \\\"hi\\\"\"] and the deep link event was already triggered"
    );
}

#[test]
fn second_instance_line_with_no_arguments() {
    let line = second_instance_message(&Vec::new());
    assert_eq!(
        line,
        "a new app instance was opened with [] and the deep link event was already triggered"
    );
}

#[test]
fn second_instance_line_from_listed_text() {
    assert_eq!(
        second_instance_message_from("[\"a\"]"),
        "a new app instance was opened with [\"a\"] and the deep link event was already triggered"
    );
    assert_eq!(
        second_instance_message_from(""),
        "a new app instance was opened with  and the deep link event was already triggered"
    );
}

#[test]
fn deep_links_registered_on_windows_and_linux_only() {
    assert!(registers_deep_links(Platform::Windows));
    assert!(registers_deep_links(Platform::Linux));
    assert!(!registers_deep_links(Platform::MacOs));
    assert!(!registers_deep_links(Platform::Ios));
    assert!(!registers_deep_links(Platform::Android));
    assert!(!registers_deep_links(Platform::Other));
}

#[test]
fn failed_run_loop_aborts_with_fixed_message() {
    match exit_after_run(Err("Setup(\"no window\")".to_string())) {
        Exit::Abort(m) => {
            assert_eq!(m, "error while running tauri application: Setup(\"no window\")")
        }
        Exit::Normal => panic!("a failed run loop must abort"),
    }
}

#[test]
fn finished_run_loop_exits_normally() {
    assert!(matches!(exit_after_run(Ok(())), Exit::Normal));
}

#[test]
fn run_failure_message_with_empty_detail() {
    assert_eq!(run_failure_message(""), "error while running tauri application: ");
}

#[test]
fn plugins_registered_once_each_in_fixed_order() {
    assert_eq!(
        plugins_in_order(),
        vec![
            Plugin::Updater,
            Plugin::GlobalShortcut,
            Plugin::Fs,
            Plugin::SingleInstance,
            Plugin::DeepLink,
            Plugin::Shell,
            Plugin::Store,
            Plugin::Http,
            Plugin::DiscordRpc,
            Plugin::Opener,
        ]
    );
}
