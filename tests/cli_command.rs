use nosy::cli_command::CliCommand;

#[test]
fn test_appends_arg() {
    let cmd = CliCommand::new("echo").arg("hello");
    assert_eq!(cmd.to_display_string(), "echo hello");
}

#[test]
fn test_skips_none() {
    let cmd = CliCommand::new("echo").arg_opt(None).arg("hello");
    assert_eq!(cmd.to_display_string(), "echo hello");
}

#[test]
fn test_appends_some() {
    let cmd = CliCommand::new("echo").arg_opt(Some("--flag"));
    assert_eq!(cmd.to_display_string(), "echo --flag");
}

#[test]
fn args_keep_order() {
    let cmd = CliCommand::new("ls").args(&["-l", "-a"]).arg("/tmp");
    assert_eq!(cmd.program(), "ls");
    assert_eq!(cmd.arguments(), &vec!["-l".to_string(), "-a".to_string(), "/tmp".to_string()]);
    assert_eq!(cmd.argv(), vec!["ls", "-l", "-a", "/tmp"]);
    assert_eq!(CliCommand::new("true").to_display_string(), "true");
}
