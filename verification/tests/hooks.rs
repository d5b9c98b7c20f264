use webhookd::hooks::{example_hooks, Command, CommandArgs, MaybeBound, Stdin, EXAMPLE_HOOKS};

#[test]
fn hooks_file_commands() {
    let cmd = Command::new(
        CommandArgs::from_vec(vec!["make".to_string(), "release".to_string()]).unwrap(),
        Stdin::RequestBody,
    );
    assert_eq!(cmd.cmd(), "make");
    assert_eq!(cmd.args(), &["release".to_string()][..]);
    assert!(cmd.wants_request_body());
    assert!(!Command::new(CommandArgs::from_vec(vec!["ls".to_string()]).unwrap(), Stdin::Nothing).wants_request_body());
    assert_eq!(MaybeBound::N(2).bound(), Some(2));
}

#[test]
fn example_hooks_file() {
    assert_eq!(example_hooks(), EXAMPLE_HOOKS);
    assert!(example_hooks().starts_with("#"));
    assert!(example_hooks().contains("- url:"));
}

#[test]
fn example_hooks_file_is_a_yaml_list() {
    let value: serde_yaml::Value = serde_yaml::from_str(EXAMPLE_HOOKS).unwrap();
    let hooks = value.as_sequence().unwrap();
    assert_eq!(hooks.len(), 2);
    assert_eq!(hooks[0]["url"].as_str(), Some("/make-release-tarball"));
    assert_eq!(hooks[0]["queue-type"].as_str(), Some("fifo"));
    assert_eq!(hooks[1]["working-dir"].as_str(), Some("/etc/my-little-service/"));
}
