use pir_mqtt::config::{parse_pin, Config, ConfigError, ConfigVars};

fn vars() -> ConfigVars {
    ConfigVars {
        mqtt_server: None,
        mqtt_port: None,
        mqtt_client_id: Some("client-7".to_string()),
        mqtt_username: None,
        mqtt_password: None,
        device_name: Some("hall".to_string()),
        mqtt_persistence_file: None,
        pir_pin: Some("17".to_string()),
    }
}

#[test]
fn test_clone() {
    let config = Config {
        device_name: "test-device".to_string(),
        mqtt_server: "test.mosquitto.org".to_string(),
        mqtt_port: "1883".to_string(),
        config_payload: "test payload".to_string(),
        config_topic: "test/config".to_string(),
        motion_topic: "test/motion".to_string(),
        mqtt_username: "testuser".to_string(),
        mqtt_password: "testpass".to_string(),
        mqtt_persistence_file: "/tmp/mqtt-persistence".to_string(),
        mqtt_client_id: "test-client".to_string(),
        pir_pin: 4,
    };

    let cloned_config = config.clone();

    assert_eq!(config.mqtt_server, cloned_config.mqtt_server);
    assert_eq!(config.mqtt_port, cloned_config.mqtt_port);
    assert_eq!(config.config_payload, cloned_config.config_payload);
    assert_eq!(config.config_topic, cloned_config.config_topic);
    assert_eq!(config.motion_topic, cloned_config.motion_topic);
    assert_eq!(config.mqtt_username, cloned_config.mqtt_username);
    assert_eq!(config.mqtt_password, cloned_config.mqtt_password);
    assert_eq!(config.mqtt_persistence_file, cloned_config.mqtt_persistence_file);
    assert_eq!(config.mqtt_client_id, cloned_config.mqtt_client_id);
}

#[test]
fn new_fills_defaults() {
    let c = match Config::new(vars()) {
        Ok(c) => c,
        Err(e) => panic!("refused: {:?}", e),
    };
    assert_eq!(c.mqtt_server, "mqtt://localhost:1883");
    assert_eq!(c.mqtt_port, "1883");
    assert_eq!(c.mqtt_username, "iot");
    assert_eq!(c.mqtt_password, "password");
    assert_eq!(c.mqtt_persistence_file, "/tmp/mqtt_persistence_file");
    assert_eq!(c.mqtt_client_id, "client-7");
    assert_eq!(c.device_name, "hall");
    assert_eq!(c.pir_pin, 17);
}

#[test]
fn new_builds_topics_and_payload() {
    let c = Config::new(vars()).ok().unwrap();
    assert_eq!(c.config_topic, "homeassistant/binary_sensor/hall/config");
    assert_eq!(c.motion_topic, "homeassistant/binary_sensor/hall/state");
    assert_eq!(
        c.config_payload,
        "{\"name\": \"hall_motion\", \"device_class\": \"motion\", \"unique_id\": \"client-7_hall_id\", \"state_topic\": \"homeassistant/binary_sensor/hall/state\"}"
    );
}

#[test]
fn new_uses_given_values() {
    let mut v = vars();
    v.mqtt_server = Some("mqtt://broker".to_string());
    v.mqtt_port = Some("8883".to_string());
    v.mqtt_username = Some("me".to_string());
    v.mqtt_password = Some("SECRET-REDACTED".to_string());
    v.mqtt_persistence_file = Some("/var/lib/pir".to_string());
    let c = Config::new(v).ok().unwrap();
    assert_eq!(c.mqtt_server, "mqtt://broker:8883");
    assert_eq!(c.mqtt_port, "8883");
    assert_eq!(c.mqtt_username, "me");
    assert_eq!(c.mqtt_password, "SECRET-REDACTED");
    assert_eq!(c.mqtt_persistence_file, "/var/lib/pir");
}

#[test]
fn new_requires_client_id_first() {
    let mut v = vars();
    v.mqtt_client_id = None;
    v.device_name = None;
    assert_eq!(Config::new(v).err(), Some(ConfigError::MissingClientId));
}

#[test]
fn new_requires_device_name() {
    let mut v = vars();
    v.device_name = None;
    v.pir_pin = None;
    assert_eq!(Config::new(v).err(), Some(ConfigError::MissingDeviceName));
}

#[test]
fn new_requires_pin() {
    let mut v = vars();
    v.pir_pin = None;
    assert_eq!(Config::new(v).err(), Some(ConfigError::MissingPirPin));
}

#[test]
fn new_refuses_bad_pin() {
    let mut v = vars();
    v.pir_pin = Some("gpio17".to_string());
    assert_eq!(Config::new(v).err(), Some(ConfigError::InvalidPirPin));
}

#[test]
fn parse_pin_reads_decimal() {
    assert_eq!(parse_pin("0"), Some(0));
    assert_eq!(parse_pin("17"), Some(17));
    assert_eq!(parse_pin("255"), Some(255));
    assert_eq!(parse_pin("+5"), Some(5));
    assert_eq!(parse_pin("007"), Some(7));
}

#[test]
fn parse_pin_refuses_others() {
    assert_eq!(parse_pin(""), None);
    assert_eq!(parse_pin("+"), None);
    assert_eq!(parse_pin("256"), None);
    assert_eq!(parse_pin("1000"), None);
    assert_eq!(parse_pin("-1"), None);
    assert_eq!(parse_pin("1a"), None);
    assert_eq!(parse_pin(" 1"), None);
    assert_eq!(parse_pin("++1"), None);
}

#[test]
fn parse_pin_agrees_with_std() {
    for s in ["0", "9", "+9", "255", "256", "-0", "", "+", "12x", "\u{663}"] {
        assert_eq!(parse_pin(s), s.parse::<u8>().ok(), "input {:?}", s);
    }
}
