use hotkey_overlay::LaunchStrategy;
use hotkey_overlay::Platform;
use hotkey_overlay::keyboard_unavailable;
use hotkey_overlay::launch_result;
use hotkey_overlay::plan_launch;
use hotkey_overlay::unsupported_launch;

#[test]
fn each_platform_gets_its_strategy() {
    assert_eq!(plan_launch(&Platform::Windows), LaunchStrategy::DirectSpawn);
    assert_eq!(plan_launch(&Platform::Linux), LaunchStrategy::DirectSpawn);
    assert_eq!(plan_launch(&Platform::MacOs), LaunchStrategy::DefaultOpen);
    assert_eq!(plan_launch(&Platform::Other), LaunchStrategy::Unsupported);
}

#[test]
fn successful_spawn_reports_success_without_diagnostic() {
    let result = launch_result(Ok(()));
    assert!(result.success);
    assert!(result.diagnostic.is_none());
}

#[test]
fn failed_spawn_reports_a_nonempty_diagnostic() {
    // The outcome a spawn of a nonexistent target hands back: the OS error
    // text becomes part of a non-empty diagnostic.
    let result = launch_result(Err(String::from("No such file or directory")));
    assert!(!result.success);
    let diagnostic = result.diagnostic.expect("a failed launch carries a diagnostic");
    assert!(!diagnostic.is_empty());
    assert!(diagnostic.contains("No such file or directory"));
}

#[test]
fn failed_spawn_with_empty_error_still_diagnosed() {
    let result = launch_result(Err(String::new()));
    assert!(!result.success);
    assert!(!result.diagnostic.unwrap().is_empty());
}

#[test]
fn unsupported_platform_refuses_with_diagnostic() {
    let result = unsupported_launch();
    assert!(!result.success);
    let diagnostic = result.diagnostic.expect("a refusal carries a diagnostic");
    assert!(!diagnostic.is_empty());
}

#[test]
fn keyboard_unavailable_is_diagnosed() {
    let err = keyboard_unavailable(String::from("permission denied"));
    assert!(!err.diagnostic.is_empty());
    assert!(err.diagnostic.contains("permission denied"));
}
