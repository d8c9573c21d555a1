use feedback_shell::bootstrap::HandleSlot;
use feedback_shell::bootstrap::NavigationPlan;
use feedback_shell::bootstrap::BootPhase;
use feedback_shell::bootstrap::next_phase;
use feedback_shell::bootstrap::plan_navigation;
use feedback_shell::bridge::builder_factory;
use feedback_shell::bridge::context_factory;
use feedback_shell::bridge::exit_status;
use feedback_shell::bridge::worker_body;
use feedback_shell::state::AppState;

#[test]
fn fresh_state_has_empty_url_and_desktop_mode_off() {
    let s = AppState::new();
    assert_eq!(s.get_web_url(), "");
    assert!(!s.is_desktop_mode());
}

#[test]
fn default_state_equals_fresh_state() {
    let s = AppState::default();
    assert_eq!(s.get_web_url(), "");
    assert!(!s.is_desktop_mode());
}

#[test]
fn set_web_url_then_get_returns_it() {
    let mut s = AppState::new();
    s.set_web_url(String::from("http://example.test/feedback"));
    assert_eq!(s.get_web_url(), "http://example.test/feedback");
    s.set_web_url(String::from(""));
    assert_eq!(s.get_web_url(), "");
}

#[test]
fn set_desktop_mode_then_read_returns_it() {
    let mut s = AppState::new();
    s.set_desktop_mode(true);
    assert!(s.is_desktop_mode());
    s.set_desktop_mode(false);
    assert!(!s.is_desktop_mode());
}

#[test]
fn setting_url_leaves_mode_alone_and_vice_versa() {
    let mut s = AppState::new();
    s.set_desktop_mode(true);
    s.set_web_url(String::from("http://example.test"));
    assert!(s.is_desktop_mode());
    s.set_desktop_mode(false);
    assert_eq!(s.get_web_url(), "http://example.test");
}

#[test]
fn launch_without_env_url_keeps_default_content() {
    let plan = plan_navigation(None);
    assert!(matches!(plan, NavigationPlan::KeepDefault));
}

#[test]
fn launch_with_valid_url_navigates_to_it() {
    let plan = plan_navigation(Some(String::from("http://example.test")));
    match plan {
        NavigationPlan::Navigate(u) => assert_eq!(u, "http://example.test"),
        _ => panic!("a well-formed URL must be navigated to"),
    }
}

#[test]
fn launch_with_invalid_url_reports_config_error() {
    let plan = plan_navigation(Some(String::from("not a url")));
    match plan {
        NavigationPlan::InvalidConfig(u) => assert_eq!(u, "not a url"),
        _ => panic!("an ill-formed URL must be reported, not navigated to"),
    }
}

#[test]
fn worker_reports_immediate_success() {
    assert_eq!(worker_body(), 0);
}

#[test]
fn joined_worker_code_becomes_the_exit_status() {
    assert_eq!(exit_status(Some(0)), 0);
    assert_eq!(exit_status(Some(7)), 7);
}

#[test]
fn failed_join_becomes_exit_status_one() {
    assert_eq!(exit_status(None), 1);
}

#[test]
fn run_app_outcome_for_a_normal_worker_is_zero() {
    let code = worker_body();
    assert_eq!(exit_status(Some(code)), 0);
}

#[test]
fn factory_tokens_are_the_placeholder_identifiers() {
    assert_eq!(context_factory(), "tauri_context");
    assert_eq!(builder_factory(), "tauri_builder");
}

#[test]
fn handle_slot_is_empty_until_installed() {
    let mut slot: HandleSlot<u32> = HandleSlot::empty();
    assert!(!slot.is_installed());
    slot.install(42);
    assert!(slot.is_installed());
}

#[test]
fn boot_phases_advance_in_order_and_exit_is_terminal() {
    let building = next_phase(&BootPhase::Uninitialized);
    assert!(matches!(building, BootPhase::Building));
    let setup = next_phase(&building);
    assert!(matches!(setup, BootPhase::Setup));
    let running = next_phase(&setup);
    assert!(matches!(running, BootPhase::Running));
    let exited = next_phase(&running);
    assert!(matches!(exited, BootPhase::Exited));
    assert!(matches!(next_phase(&exited), BootPhase::Exited));
}
