use indexmap::IndexMap;
use webhookd::config::{
    default_has_response, default_log_level, default_max_concurrent, default_port, default_queue_size,
    default_queue_type, default_stdin, BoundError, Command, CommandArgs, Config, Hook, IpAddress, MaybeBound,
    SocketAddress, Stdin, EXAMPLE_CONFIG,
};
use webhookd::logging::LogLevel;
use webhookd::types::QueueType;

fn args(words: &[&str]) -> Vec<String> {
    words.iter().map(|w| w.to_string()).collect()
}

fn config(bind_address: Option<IpAddress>) -> Config {
    Config { bind_address, port: 1234, tls: None, log_level: LogLevel::Info, hooks: Vec::new() }
}

#[test]
fn defaults() {
    assert_eq!(default_port(), 8091);
    assert_eq!(default_log_level(), LogLevel::Info);
    assert_eq!(default_max_concurrent(), MaybeBound::N(1));
    assert_eq!(default_queue_size(), MaybeBound::N(1));
    assert_eq!(default_queue_type(), QueueType::Lifo);
    assert_eq!(default_stdin(), Stdin::Nothing);
    assert!(!default_has_response());
}

#[test]
fn bounds() {
    assert_eq!(MaybeBound::N(3).bound(), Some(3));
    assert_eq!(MaybeBound::Unlimited.bound(), None);
    assert_eq!(MaybeBound::from_word("unlimited"), Ok(MaybeBound::Unlimited));
    assert_eq!(MaybeBound::from_word("Unlimited"), Err(BoundError::NotUnlimited));
    assert_eq!(MaybeBound::from_word("12"), Err(BoundError::NotUnlimited));
    assert_eq!(MaybeBound::from_number(12), Ok(MaybeBound::N(12)));
    assert_eq!(MaybeBound::from_number(0), Ok(MaybeBound::N(0)));
}

#[test]
fn command_args_must_not_be_empty() {
    assert_eq!(CommandArgs::from_vec(Vec::new()).unwrap_err(), "command arguments can not be empty");
    assert!(CommandArgs::from_vec(args(&["true"])).is_ok());
}

#[test]
fn command_accessors() {
    let cmd = Command::new(CommandArgs::from_vec(args(&["git", "reset", "--hard"])).unwrap(), Stdin::RequestBody, true);
    assert_eq!(cmd.cmd(), "git");
    assert_eq!(cmd.args(), &["reset".to_string(), "--hard".to_string()][..]);
    assert!(cmd.wants_request_body());
    assert!(cmd.has_response());

    let plain = Command::new(CommandArgs::from_vec(args(&["ls"])).unwrap(), Stdin::Nothing, false);
    assert_eq!(plain.cmd(), "ls");
    assert!(plain.args().is_empty());
    assert!(!plain.wants_request_body());
    assert!(!plain.has_response());

    let copy = cmd.clone();
    assert_eq!(copy.cmd(), "git");
    assert_eq!(copy.args().len(), 2);
}

#[test]
fn socket_address_defaults_to_unspecified_ipv6() {
    assert_eq!(config(None).socket_address(), SocketAddress { ip: IpAddress::V6(0), port: 1234 });
    let localhost = IpAddress::V4(0x7f00_0001);
    assert_eq!(config(Some(localhost)).socket_address(), SocketAddress { ip: localhost, port: 1234 });
}

#[test]
fn example_config_mentions_every_setting() {
    let example = Config::example();
    assert_eq!(example, EXAMPLE_CONFIG);
    for key in ["port:", "log-level:", "hooks:", "url:", "commands:", "max-concurrent:", "queue-size:", "queue-type:", "secret:", "environment:", "working-dir:"] {
        assert!(example.contains(key), "{}", key);
    }
}

#[test]
fn hooks_hold_their_settings() {
    let hook = Hook {
        url: "/deploy".to_string(),
        commands: vec![Command::new(CommandArgs::from_vec(args(&["deploy"])).unwrap(), default_stdin(), default_has_response())],
        environment: IndexMap::from([("A".to_string(), "1".to_string())]),
        max_concurrent: default_max_concurrent(),
        queue_size: MaybeBound::Unlimited,
        queue_type: default_queue_type(),
        working_dir: None,
        secret: Some("s".to_string()),
    };
    assert_eq!(hook.max_concurrent.bound(), Some(1));
    assert_eq!(hook.queue_size.bound(), None);
}

#[test]
fn example_config_is_yaml_with_hooks() {
    let value: serde_yaml::Value = serde_yaml::from_str(EXAMPLE_CONFIG).unwrap();
    assert_eq!(value["port"].as_u64(), Some(8091));
    assert_eq!(value["log-level"].as_str(), Some("info"));
    let hooks = value["hooks"].as_sequence().unwrap();
    assert_eq!(hooks.len(), 3);
    assert_eq!(hooks[0]["url"].as_str(), Some("/make-release-tarball"));
    assert_eq!(hooks[0]["commands"][0]["cmd"][0].as_str(), Some("make-release-tarball"));
    assert_eq!(hooks[0]["commands"][0]["stdin"].as_str(), Some("request-body"));
    assert_eq!(hooks[0]["max-concurrent"].as_u64(), Some(1));
    assert_eq!(hooks[0]["queue-size"].as_str(), Some("unlimited"));
    assert_eq!(hooks[0]["environment"]["RELEASE_DIR"].as_str(), Some("/srv/releases"));
    assert_eq!(hooks[1]["commands"].as_sequence().unwrap().len(), 3);
    assert_eq!(hooks[2]["commands"][0]["has_response"].as_bool(), Some(true));
}
