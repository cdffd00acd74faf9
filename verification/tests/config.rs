use ircd::config::ConfigError;
use ircd::{parse_config, Config, ConfigData, ConfigThreadMsg, ConfigWorker};

fn s(text: &str) -> String {
    text.to_string()
}

const TEXT: &str = "server_name: irc.example.org\nclient_bind_addr: 0.0.0.0:6667\nserver_bind_addr: 0.0.0.0:6697\nserver_pass: secret\nserver_desc: A test server\n";

fn expected() -> ConfigData {
    ConfigData::new(
        s("irc.example.org"),
        s("0.0.0.0:6667"),
        s("0.0.0.0:6697"),
        s("secret"),
        s("A test server"),
    )
}

#[test]
fn parse_config_reads_the_five_settings() {
    assert_eq!(parse_config(TEXT), Ok(expected()));
}

#[test]
fn parse_config_does_not_mind_the_order_or_more_keys() {
    let text = "extra: x\nserver_desc: A test server\nserver_pass: secret\nserver_bind_addr: 0.0.0.0:6697\nclient_bind_addr: 0.0.0.0:6667\nserver_name: irc.example.org\n";
    assert_eq!(parse_config(text), Ok(expected()));
}

#[test]
fn parse_config_names_the_first_missing_key() {
    assert_eq!(parse_config("server_name: a\n"), Err(ConfigError::Missing("client_bind_addr")));
    assert_eq!(parse_config("other: a\n"), Err(ConfigError::Missing("server_name")));
    assert_eq!(
        parse_config("server_name: a\nclient_bind_addr: b\n"),
        Err(ConfigError::Missing("server_bind_addr"))
    );
    assert_eq!(
        parse_config("server_name: a\nclient_bind_addr: b\nserver_bind_addr: c\n"),
        Err(ConfigError::Missing("server_pass"))
    );
    assert_eq!(
        parse_config("server_name: a\nclient_bind_addr: b\nserver_bind_addr: c\nserver_pass: d\n"),
        Err(ConfigError::Missing("server_desc"))
    );
}

#[test]
fn parse_config_rejects_what_is_no_mapping_of_texts() {
    assert!(matches!(parse_config("- a\n- b\n"), Err(ConfigError::Yaml(_))));
    assert!(matches!(parse_config("server_name: [1, 2]\n"), Err(ConfigError::Yaml(_))));
    assert!(matches!(parse_config("{"), Err(ConfigError::Yaml(_))));
}

#[test]
fn from_pairs_takes_the_first_entry_of_a_key() {
    let pairs = vec![
        (s("server_name"), s("first")),
        (s("server_name"), s("second")),
        (s("client_bind_addr"), s("c")),
        (s("server_bind_addr"), s("b")),
        (s("server_pass"), s("p")),
        (s("server_desc"), s("d")),
    ];
    assert_eq!(
        ConfigData::from_pairs(&pairs),
        Ok(ConfigData::new(s("first"), s("c"), s("b"), s("p"), s("d")))
    );
}

#[test]
fn config_hands_out_each_setting() {
    let config = Config::new(ConfigWorker::new(expected()));
    assert_eq!(config.get_server_name(), "irc.example.org");
    assert_eq!(config.get_client_bind_addr(), "0.0.0.0:6667");
    assert_eq!(config.get_server_bind_addr(), "0.0.0.0:6697");
    assert_eq!(config.get_server_pass(), "secret");
    assert_eq!(config.get_server_desc(), "A test server");
    assert_eq!(config.clone().get_server_pass(), "secret");
}

#[test]
fn config_worker_answers_each_request() {
    let mut worker = ConfigWorker::new(expected());
    assert_eq!(worker.handle_msg(ConfigThreadMsg::GetServerName), (s("irc.example.org"), false));
    assert_eq!(worker.handle_msg(ConfigThreadMsg::GetClientBindAddr), (s("0.0.0.0:6667"), false));
    assert_eq!(worker.handle_msg(ConfigThreadMsg::GetServerBindAddr), (s("0.0.0.0:6697"), false));
    assert_eq!(worker.handle_msg(ConfigThreadMsg::GetServerPass), (s("secret"), false));
    assert_eq!(worker.handle_msg(ConfigThreadMsg::GetServerDesc), (s("A test server"), false));
}
