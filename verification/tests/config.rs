use dns_fallback::bootstraps::Config;
use dns_fallback::bootstraps2::config_text;
use dns_fallback::bootstraps2::BootstrapMode;
use dns_fallback::bootstraps2::DEFAULT_CONFIG_STR;
use dns_fallback::config_types::BaseConfig;
use dns_fallback::config_types::DEFAULT_CONFIG_TOML_STR;
use dns_fallback::config_types::Keys;
use dns_fallback::config_types::PacketType;
use dns_fallback::config_types::Recv;
use dns_fallback::config_types::Timeout;

#[test]
fn lib_it_works() {
    let c = Config::default();
    let config = c.0;
    assert_eq!(config.ip, "192.168.1.1");
    assert_eq!(config.port, Some(4433));
    assert_eq!(config.keys.github, "00000000000000000");
    assert_eq!(config.keys.travis.as_ref().unwrap(), "11111111111111111");
}

#[test]
fn builtin_configuration_is_what_its_text_says() {
    let table: toml::Table = DEFAULT_CONFIG_TOML_STR.parse().unwrap();
    let keys = table["keys"].as_table().unwrap();
    let c = Config::default();
    let config = c.as_ref();
    assert_eq!(config.ip, table["ip"].as_str().unwrap());
    assert_eq!(config.port.map(i64::from), table["port"].as_integer());
    assert_eq!(config.keys.github, keys["github"].as_str().unwrap());
    assert_eq!(config.keys.travis.as_deref(), keys["travis"].as_str());
    assert_eq!(keys["packet_type"].as_str(), Some("Mix"));
    assert_eq!(config.keys.packet_type, PacketType::Mix);
    let endpoints: Vec<&str> =
        keys["endpoint"].as_array().unwrap().iter().map(|v| v.as_str().unwrap()).collect();
    assert_eq!(config.keys.endpoint, endpoints);
    assert_eq!(keys["timeout"].as_str(), Some("60s"));
    assert_eq!(config.keys.timeout, Timeout { secs: 60, nanos: 0 });
    assert_eq!(config.keys.recipient, None);
    assert_eq!(Some(config.keys.number as i64), keys["number"].as_integer());
    assert_eq!(config.keys.number, 10);
}

#[test]
fn blank_keys_hold_nothing() {
    let keys = Keys::default();
    assert_eq!(keys.github, "");
    assert_eq!(keys.travis, None);
    assert_eq!(keys.packet_type, PacketType::Mix);
    assert!(keys.endpoint.is_empty());
    assert_eq!(keys.timeout, Timeout { secs: 0, nanos: 0 });
    assert_eq!(keys.recipient, None);
    assert_eq!(keys.number, 0);
}

#[test]
fn defaults_of_the_small_types() {
    assert_eq!(PacketType::default(), PacketType::Mix);
    assert_eq!(Recv::default(), Recv {});
    assert_eq!(Timeout::from_secs(5), Timeout { secs: 5, nanos: 0 });
}

#[test]
fn base_config_is_built_from_its_parts() {
    let config = BaseConfig {
        ip: "127.0.0.1".to_string(),
        port: None,
        keys: Keys {
            github: "xxxxxxxxxxxxxxxxx".to_string(),
            travis: Some("yyyyyyyyyyyyyyyyy".to_string()),
            ..Default::default()
        },
    };
    assert_eq!(config.ip, "127.0.0.1");
    assert_eq!(config.port, None);
    assert_eq!(config.keys.github, "xxxxxxxxxxxxxxxxx");
    assert_eq!(config.keys.travis.as_ref().unwrap(), "yyyyyyyyyyyyyyyyy");
    assert_eq!(config.clone(), config);
}

#[test]
fn disabled_bootstrap_reads_the_builtin_text() {
    assert_eq!(config_text(BootstrapMode::Disabled, "ip = \"127.0.0.1\"", "builtin"), "builtin");
    assert_eq!(config_text(BootstrapMode::Disabled, "", DEFAULT_CONFIG_STR), DEFAULT_CONFIG_STR);
}

#[test]
fn enabled_bootstrap_reads_the_embedded_text_unless_it_is_empty() {
    assert_eq!(
        config_text(BootstrapMode::Enabled, "ip = \"127.0.0.1\"", "builtin"),
        "ip = \"127.0.0.1\""
    );
    assert_eq!(config_text(BootstrapMode::Enabled, "", "builtin"), "builtin");
    assert_eq!(config_text(BootstrapMode::Enabled, " ", "builtin"), " ");
}

#[test]
fn required_bootstrap_reads_the_embedded_text_even_if_empty() {
    assert_eq!(
        config_text(BootstrapMode::Required, "ip = \"127.0.0.1\"", "builtin"),
        "ip = \"127.0.0.1\""
    );
    assert_eq!(config_text(BootstrapMode::Required, "", "builtin"), "");
}

#[test]
fn builtin_short_text_names_the_address_and_two_keys() {
    let table: toml::Table = DEFAULT_CONFIG_STR.parse().unwrap();
    assert_eq!(table["ip"].as_str(), Some("192.168.1.1"));
    assert_eq!(table["port"].as_integer(), Some(4433));
    let keys = table["keys"].as_table().unwrap();
    assert_eq!(keys["github"].as_str(), Some("00000000000000000"));
    assert_eq!(keys["travis"].as_str(), Some("11111111111111111"));
    assert_eq!(keys.len(), 2);
}

#[test]
fn a_configuration_hands_out_what_is_inside() {
    let base = BaseConfig {
        ip: "127.0.0.1".to_string(),
        port: Some(8000),
        keys: Keys { number: 100, ..Default::default() },
    };
    let config = dns_fallback::bootstraps2::Config(base.clone());
    assert_eq!(config.as_ref(), &base);
    assert_eq!(config.as_ref().keys.number, 100);
    let builtin = Config::default();
    assert_eq!(builtin.as_ref(), &builtin.0);
}
