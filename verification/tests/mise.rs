use doubleagent_core::error::Error;
use doubleagent_core::mise::{
    build_command, check_mise_installed, has_mise_toml, install_tools, install_tools_finished,
};

fn message_of(e: Error) -> String {
    e.message()
}

#[test]
fn test_has_mise_toml_false() {
    let names: Vec<String> = Vec::new();
    assert!(!has_mise_toml(&names));
}

#[test]
fn test_has_mise_toml_true() {
    let names = vec!["server".to_string(), ".mise.toml".to_string()];
    assert!(has_mise_toml(&names));
}

#[test]
fn test_build_command_without_mise_toml() {
    let command = vec!["python".to_string(), "main.py".to_string()];
    let cmd = build_command(&command, false, false).unwrap();
    assert_eq!(cmd.program, "python");
    assert_eq!(cmd.args, vec!["main.py".to_string()]);
}

#[test]
fn test_build_command_with_mise_toml() {
    let command = vec!["python".to_string(), "main.py".to_string()];
    let cmd = build_command(&command, true, true).unwrap();
    assert_eq!(cmd.program, "mise");
    assert_eq!(
        cmd.args,
        vec![
            "exec".to_string(),
            "--".to_string(),
            "python".to_string(),
            "main.py".to_string()
        ]
    );
}

#[test]
fn test_build_command_empty_command() {
    let command: Vec<String> = vec![];
    let result = build_command(&command, false, false);
    assert!(result.is_err());
    assert!(message_of(result.unwrap_err()).contains("Empty command"));
}

#[test]
fn test_build_command_single_arg() {
    let command = vec!["echo".to_string()];
    let cmd = build_command(&command, false, false).unwrap();
    assert_eq!(cmd.program, "echo");
    assert_eq!(cmd.args.len(), 0);
}

#[test]
fn test_check_mise_installed_error_message() {
    assert!(check_mise_installed(true).is_ok());
    let msg = message_of(check_mise_installed(false).unwrap_err());
    assert!(msg.contains("mise not found"));
    assert!(msg.contains("curl https://mise.run | sh"));
}

#[test]
fn build_command_needs_mise_for_a_descriptor() {
    let command = vec!["python".to_string()];
    let err = build_command(&command, true, false).unwrap_err();
    assert!(matches!(err, Error::Other(_)));
    assert!(message_of(err).starts_with("mise not found."));
}

#[test]
fn install_tools_without_descriptor_does_nothing() {
    assert!(install_tools(false, false).unwrap().is_none());
    assert!(install_tools(false, true).unwrap().is_none());
}

#[test]
fn install_tools_runs_mise_install() {
    let cmd = install_tools(true, true).unwrap().unwrap();
    assert_eq!(cmd.program, "mise");
    assert_eq!(cmd.args, vec!["install".to_string()]);
    assert!(install_tools(true, false).is_err());
}

#[test]
fn install_tools_reports_the_exit_code() {
    assert!(install_tools_finished(true, Some(0)).is_ok());
    assert_eq!(
        message_of(install_tools_finished(false, Some(3)).unwrap_err()),
        "Failed to install mise tools. Exit code: Some(3)"
    );
    assert_eq!(
        message_of(install_tools_finished(false, Some(-2)).unwrap_err()),
        "Failed to install mise tools. Exit code: Some(-2)"
    );
    assert_eq!(
        message_of(install_tools_finished(false, None).unwrap_err()),
        "Failed to install mise tools. Exit code: None"
    );
    assert_eq!(
        message_of(install_tools_finished(false, Some(i32::MIN)).unwrap_err()),
        "Failed to install mise tools. Exit code: Some(-2147483648)"
    );
}
