use mymodbus::config::{
    config_path, parse_config, port_mode, ConfigError, ConfigKey, LogLevel, ModbusPortMode,
    ValueError,
};
use mymodbus::number::NumberError;

const FULL: &str = "\
# inverter monitor
web_server.bind_address = 0.0.0.0
web_server.bind_port = 8080

modbus.serial_port = /dev/ttyUSB0
modbus.mock = false
general.log_path = /var/log/mymodbus.log
general.log_level = Info
general.log_to_stdout = true
";

#[test]
fn parses_a_complete_file() {
    let c = parse_config(FULL).unwrap();
    assert_eq!(c.web_server.bind_address, "0.0.0.0");
    assert_eq!(c.web_server.bind_port, 8080);
    assert_eq!(c.modbus.serial_port, "/dev/ttyUSB0");
    assert_eq!(c.modbus.mock, ModbusPortMode::Real);
    assert_eq!(c.general.log_path, "/var/log/mymodbus.log");
    assert_eq!(c.general.log_level, LogLevel::Info);
    assert!(c.general.log_to_stdout);
}

#[test]
fn later_lines_override_and_crlf_is_accepted() {
    let text = FULL.replace('\n', "\r\n") + "modbus.mock=true\r\ngeneral.log_level=Trace";
    let c = parse_config(&text).unwrap();
    assert_eq!(c.modbus.mock, ModbusPortMode::Mock);
    assert_eq!(c.general.log_level, LogLevel::Trace);
}

#[test]
fn missing_keys_are_reported_in_field_order() {
    assert_eq!(
        parse_config("").err(),
        Some(ConfigError::MissingKey { key: ConfigKey::WebServerBindAddress })
    );
    let text = FULL.replace("general.log_to_stdout = true\n", "");
    assert_eq!(
        parse_config(&text).err(),
        Some(ConfigError::MissingKey { key: ConfigKey::GeneralLogToStdout })
    );
}

#[test]
fn bad_lines_are_reported_with_their_number() {
    assert_eq!(
        parse_config("# c\n\nno equals sign\n").err(),
        Some(ConfigError::ExpectedKeyValue { line: 3 })
    );
    assert_eq!(
        parse_config("web_server.bind_port = 70000").err(),
        Some(ConfigError::InvalidValue {
            line: 1,
            key: ConfigKey::WebServerBindPort,
            reason: ValueError::Number(NumberError::PosOverflow)
        })
    );
    assert_eq!(
        parse_config("x=1\nweb_server.bind_port = 8o").err(),
        Some(ConfigError::UnknownKey { line: 1, name: "x".to_string() })
    );
    assert_eq!(
        parse_config("web_server.bind_port =").err(),
        Some(ConfigError::InvalidValue {
            line: 1,
            key: ConfigKey::WebServerBindPort,
            reason: ValueError::Number(NumberError::Empty)
        })
    );
    assert_eq!(
        parse_config("modbus.mock = yes").err(),
        Some(ConfigError::InvalidValue {
            line: 1,
            key: ConfigKey::ModbusMock,
            reason: ValueError::NotBool
        })
    );
    assert_eq!(
        parse_config("general.log_level = info").err(),
        Some(ConfigError::InvalidLogLevel { line: 1, value: "info".to_string() })
    );
}

#[test]
fn key_names_and_port_mode() {
    assert_eq!(ConfigKey::GeneralLogLevel.name(), "general.log_level");
    assert_eq!(ConfigKey::WebServerBindAddress.name(), "web_server.bind_address");
    assert_eq!(port_mode(true), ModbusPortMode::Mock);
    assert_eq!(port_mode(false), ModbusPortMode::Real);
}

#[test]
fn config_path_comes_from_the_first_config_argument() {
    let args: Vec<String> = vec!["mymodbus".into(), "--config=/etc/a.conf".into(), "--config=/b".into()];
    assert_eq!(config_path(&args), Some("/etc/a.conf".to_string()));
    let args: Vec<String> = vec!["mymodbus".into(), "-v".into()];
    assert_eq!(config_path(&args), None);
    let args: Vec<String> = vec!["--config=a=b".into()];
    assert_eq!(config_path(&args), Some("a=b".to_string()));
}

fn message_of(text: &str) -> String {
    match parse_config(text) {
        Err(e) => e.message(),
        Ok(_) => panic!("expected a configuration error"),
    }
}

#[test]
fn error_messages_name_the_line_and_key() {
    assert_eq!(message_of("web_server.bind_port = x\n"), "line 1: invalid value for web_server.bind_port: invalid digit found in string");
    assert_eq!(
        message_of("\nmodbus.mock = yes"),
        "line 2: invalid value for modbus.mock: provided string was not `true` or `false`"
    );
    assert_eq!(message_of("nonsense"), "line 1: expected key=value");
    assert_eq!(
        message_of("general.log_level = Loud"),
        "line 1: invalid value for general.log_level: Loud"
    );
    assert_eq!(message_of("a.b = 1"), "line 1: unknown config key: a.b");
    assert_eq!(
        message_of(""),
        "missing config key: web_server.bind_address"
    );
    assert_eq!(
        message_of("web_server.bind_port = 70000"),
        "line 1: invalid value for web_server.bind_port: number too large to fit in target type"
    );
}
