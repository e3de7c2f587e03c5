use app_shell::config::AppConfig;
use app_shell::envelope::{CommandResult, Payload, ShellError, SystemInfo};

fn machine() -> SystemInfo {
    SystemInfo {
        platform: "linux".to_string(),
        arch: "x86_64".to_string(),
        family: "unix".to_string(),
    }
}

#[test]
fn success_carries_data_and_no_error() {
    let result = CommandResult::succeeded(Some(Payload::Text("body".to_string())));
    assert!(result.success);
    assert_eq!(result.data, Some(Payload::Text("body".to_string())));
    assert_eq!(result.error, None);
}

#[test]
fn success_may_carry_nothing() {
    let result = CommandResult::succeeded(None);
    assert!(result.success);
    assert_eq!(result.data, None);
    assert_eq!(result.error, None);
}

#[test]
fn success_may_carry_a_config() {
    let result = CommandResult::succeeded(Some(Payload::Config(AppConfig::default())));
    assert_eq!(result.data, Some(Payload::Config(AppConfig::default())));
}

#[test]
fn failure_carries_the_message_and_no_data() {
    let result = CommandResult::failed(&ShellError::NotFound("window_7".to_string()));
    assert!(!result.success);
    assert_eq!(result.data, None);
    assert_eq!(result.error, Some("window not found: window_7".to_string()));
}

#[test]
fn every_error_has_its_message() {
    let text = |s: &str| s.to_string();
    assert_eq!(ShellError::Transport(text("dns error")).message(), "dns error");
    assert_eq!(ShellError::NotFound(text("w")).message(), "window not found: w");
    assert_eq!(ShellError::Capability(text("denied")).message(), "denied");
    assert_eq!(ShellError::InvalidUrl(text("empty host")).message(), "Invalid URL: empty host");
    assert_eq!(ShellError::MissingArgument(text("url")).message(), "missing argument: url");
    assert_eq!(ShellError::UnknownCommand(text("nope")).message(), "unknown command: nope");
    assert_eq!(ShellError::IdInUse(text("main")).message(), "window id in use: main");
    assert_eq!(ShellError::Exhausted.message(), "window ids are used up");
    assert_eq!(ShellError::Setup(text("no display")).message(), "setup failed: no display");
}

#[test]
fn an_empty_report_still_gives_a_message() {
    assert_eq!(ShellError::Transport(String::new()).message(), "transport failure");
    assert_eq!(ShellError::Capability(String::new()).message(), "capability refused");
    let result = CommandResult::failed(&ShellError::Transport(String::new()));
    assert!(!result.error.unwrap().is_empty());
}

#[test]
fn messages_are_never_empty() {
    let errors = vec![
        ShellError::Transport(String::new()),
        ShellError::NotFound(String::new()),
        ShellError::Capability(String::new()),
        ShellError::InvalidUrl(String::new()),
        ShellError::MissingArgument(String::new()),
        ShellError::UnknownCommand(String::new()),
        ShellError::IdInUse(String::new()),
        ShellError::Exhausted,
        ShellError::Setup(String::new()),
    ];
    for error in errors {
        assert!(!error.message().is_empty());
    }
}

#[test]
fn system_info_lists_three_keys_in_order() {
    let pairs = machine().entries();
    assert_eq!(
        pairs,
        vec![
            ("platform".to_string(), "linux".to_string()),
            ("arch".to_string(), "x86_64".to_string()),
            ("family".to_string(), "unix".to_string()),
        ]
    );
}

#[test]
fn system_info_clone_is_equal() {
    assert_eq!(machine().clone(), machine());
}
