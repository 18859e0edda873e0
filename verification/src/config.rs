//! The configuration file: `key = value` lines, blank lines and `#`
//! comments; every key must be given.

use vstd::prelude::*;
use crate::number::{
    decimal, decimal_chars, parse_bool, parse_bool_chars, parse_unsigned, parse_unsigned_chars,
    NumberError,
};
use crate::text::{
    chars_equal, chars_of, lines, push_chars, push_str, split_lines, split_once, split_once_chars,
    string_of, trim, trim_chars, views, CharClass,
};

verus! {

/// Whether the Modbus client talks to the serial line or to the in-memory mock.
#[derive(Debug, Clone, Copy, PartialEq, Eq, Structural)]
pub enum ModbusPortMode {
    Real,
    Mock,
}

/// Logging level names accepted in the configuration file.
#[derive(Debug, Clone, Copy, PartialEq, Eq, Structural)]
pub enum LogLevel {
    Off,
    Error,
    Warn,
    Info,
    Debug,
    Trace,
}

/// The keys of the configuration file.
#[derive(Debug, Clone, Copy, PartialEq, Eq, Structural)]
pub enum ConfigKey {
    WebServerBindAddress,
    WebServerBindPort,
    ModbusSerialPort,
    ModbusMock,
    GeneralLogPath,
    GeneralLogLevel,
    GeneralLogToStdout,
}

/// The text of a key.
pub open spec fn key_name(key: ConfigKey) -> Seq<char> {
    match key {
        ConfigKey::WebServerBindAddress => "web_server.bind_address"@,
        ConfigKey::WebServerBindPort => "web_server.bind_port"@,
        ConfigKey::ModbusSerialPort => "modbus.serial_port"@,
        ConfigKey::ModbusMock => "modbus.mock"@,
        ConfigKey::GeneralLogPath => "general.log_path"@,
        ConfigKey::GeneralLogLevel => "general.log_level"@,
        ConfigKey::GeneralLogToStdout => "general.log_to_stdout"@,
    }
}

impl ConfigKey {
    /// The text of the key, as written in the file.
    pub fn name(&self) -> (s: &'static str)
        ensures
            s@ == key_name(*self),
    {
        match self {
            ConfigKey::WebServerBindAddress => "web_server.bind_address",
            ConfigKey::WebServerBindPort => "web_server.bind_port",
            ConfigKey::ModbusSerialPort => "modbus.serial_port",
            ConfigKey::ModbusMock => "modbus.mock",
            ConfigKey::GeneralLogPath => "general.log_path",
            ConfigKey::GeneralLogLevel => "general.log_level",
            ConfigKey::GeneralLogToStdout => "general.log_to_stdout",
        }
    }
}

/// Why a value was refused.
#[derive(Debug, Clone, Copy, PartialEq, Eq, Structural)]
pub enum ValueError {
    /// Not an integer of the key's type.
    Number(NumberError),
    /// Neither `true` nor `false`.
    NotBool,
}

/// Errors found while reading the configuration text.
#[derive(Debug, Clone, PartialEq, Eq)]
pub enum ConfigError {
    /// A non-comment line without `=`.
    ExpectedKeyValue { line: usize },
    /// A value that does not parse for its key.
    InvalidValue { line: usize, key: ConfigKey, reason: ValueError },
    /// A log level other than Off, Error, Warn, Info, Debug, Trace.
    InvalidLogLevel { line: usize, value: String },
    /// A key this file format does not know.
    UnknownKey { line: usize, name: String },
    /// A key that no line gives.
    MissingKey { key: ConfigKey },
}

/// A configuration error with its texts as character sequences.
pub enum ConfigErrorView {
    ExpectedKeyValue { line: nat },
    InvalidValue { line: nat, key: ConfigKey, reason: ValueError },
    InvalidLogLevel { line: nat, value: Seq<char> },
    UnknownKey { line: nat, name: Seq<char> },
    MissingKey { key: ConfigKey },
}

impl View for ConfigError {
    type V = ConfigErrorView;

    open spec fn view(&self) -> ConfigErrorView {
        match self {
            ConfigError::ExpectedKeyValue { line } => ConfigErrorView::ExpectedKeyValue {
                line: *line as nat,
            },
            ConfigError::InvalidValue { line, key, reason } => ConfigErrorView::InvalidValue {
                line: *line as nat,
                key: *key,
                reason: *reason,
            },
            ConfigError::InvalidLogLevel { line, value } => ConfigErrorView::InvalidLogLevel {
                line: *line as nat,
                value: value@,
            },
            ConfigError::UnknownKey { line, name } => ConfigErrorView::UnknownKey {
                line: *line as nat,
                name: name@,
            },
            ConfigError::MissingKey { key } => ConfigErrorView::MissingKey { key: *key },
        }
    }
}

/// Configuration parameters for the web server.
pub struct WebServerParameters {
    /// The address for the web server to bind to.
    pub bind_address: String,
    /// The port for the web server to bind to.
    pub bind_port: u16,
}

/// Configuration parameters for the Modbus client.
pub struct ModbusParameters {
    /// The serial port to connect to.
    pub serial_port: String,
    /// Whether the client uses the serial port or the mock.
    pub mock: ModbusPortMode,
}

/// General configuration parameters.
pub struct General {
    /// The path to the log file.
    pub log_path: String,
    /// The logging level.
    pub log_level: LogLevel,
    /// Whether log lines are also written to stdout.
    pub log_to_stdout: bool,
}

/// The whole configuration of the application.
pub struct Config {
    pub web_server: WebServerParameters,
    pub modbus: ModbusParameters,
    pub general: General,
}

/// A configuration with its texts as character sequences.
pub struct ConfigView {
    pub bind_address: Seq<char>,
    pub bind_port: u16,
    pub serial_port: Seq<char>,
    pub mock: ModbusPortMode,
    pub log_path: Seq<char>,
    pub log_level: LogLevel,
    pub log_to_stdout: bool,
}

impl View for Config {
    type V = ConfigView;

    open spec fn view(&self) -> ConfigView {
        ConfigView {
            bind_address: self.web_server.bind_address@,
            bind_port: self.web_server.bind_port,
            serial_port: self.modbus.serial_port@,
            mock: self.modbus.mock,
            log_path: self.general.log_path@,
            log_level: self.general.log_level,
            log_to_stdout: self.general.log_to_stdout,
        }
    }
}

/// The message of a number that does not parse.
pub open spec fn number_error_text(e: NumberError) -> Seq<char> {
    match e {
        NumberError::Empty => "cannot parse integer from empty string"@,
        NumberError::InvalidDigit => "invalid digit found in string"@,
        NumberError::PosOverflow => "number too large to fit in target type"@,
    }
}

/// The message of a refused value.
pub open spec fn value_error_text(e: ValueError) -> Seq<char> {
    match e {
        ValueError::Number(n) => number_error_text(n),
        ValueError::NotBool => "provided string was not `true` or `false`"@,
    }
}

/// The message that reports a configuration error.
pub open spec fn config_error_text(e: ConfigErrorView) -> Seq<char> {
    match e {
        ConfigErrorView::ExpectedKeyValue { line } => "line "@ + decimal(line) + ": expected key=value"@,
        ConfigErrorView::InvalidValue { line, key, reason } => "line "@ + decimal(line)
            + ": invalid value for "@ + key_name(key) + ": "@ + value_error_text(reason),
        ConfigErrorView::InvalidLogLevel { line, value } => "line "@ + decimal(line)
            + ": invalid value for general.log_level: "@ + value,
        ConfigErrorView::UnknownKey { line, name } => "line "@ + decimal(line)
            + ": unknown config key: "@ + name,
        ConfigErrorView::MissingKey { key } => "missing config key: "@ + key_name(key),
    }
}

fn push_line(out: &mut String, line: usize)
    ensures
        final(out)@ == old(out)@ + "line "@ + decimal(line as nat),
{
    push_str(out, "line ");
    push_chars(out, decimal_chars(line as u64).as_slice());
}

impl ConfigError {
    /// The message that reports this error.
    pub fn message(&self) -> (m: String)
        ensures
            m@ == config_error_text(self@),
    {
        let mut m = String::new();
        match self {
            ConfigError::ExpectedKeyValue { line } => {
                push_line(&mut m, *line);
                push_str(&mut m, ": expected key=value");
            },
            ConfigError::InvalidValue { line, key, reason } => {
                push_line(&mut m, *line);
                push_str(&mut m, ": invalid value for ");
                push_str(&mut m, key.name());
                push_str(&mut m, ": ");
                match reason {
                    ValueError::Number(NumberError::Empty) => push_str(
                        &mut m,
                        "cannot parse integer from empty string",
                    ),
                    ValueError::Number(NumberError::InvalidDigit) => push_str(
                        &mut m,
                        "invalid digit found in string",
                    ),
                    ValueError::Number(NumberError::PosOverflow) => push_str(
                        &mut m,
                        "number too large to fit in target type",
                    ),
                    ValueError::NotBool => push_str(&mut m, "provided string was not `true` or `false`"),
                }
            },
            ConfigError::InvalidLogLevel { line, value } => {
                push_line(&mut m, *line);
                push_str(&mut m, ": invalid value for general.log_level: ");
                push_str(&mut m, value.as_str());
            },
            ConfigError::UnknownKey { line, name } => {
                push_line(&mut m, *line);
                push_str(&mut m, ": unknown config key: ");
                push_str(&mut m, name.as_str());
            },
            ConfigError::MissingKey { key } => {
                push_str(&mut m, "missing config key: ");
                push_str(&mut m, key.name());
            },
        }
        m
    }
}

/// The values read so far, each still optional.
pub struct PartialView {
    pub bind_address: Option<Seq<char>>,
    pub bind_port: Option<u16>,
    pub serial_port: Option<Seq<char>>,
    pub mock: Option<ModbusPortMode>,
    pub log_path: Option<Seq<char>>,
    pub log_level: Option<LogLevel>,
    pub log_to_stdout: Option<bool>,
}

pub open spec fn empty_partial() -> PartialView {
    PartialView {
        bind_address: None,
        bind_port: None,
        serial_port: None,
        mock: None,
        log_path: None,
        log_level: None,
        log_to_stdout: None,
    }
}

pub open spec fn port_mode_of(mock: bool) -> ModbusPortMode {
    if mock {
        ModbusPortMode::Mock
    } else {
        ModbusPortMode::Real
    }
}

pub open spec fn log_level_of(value: Seq<char>) -> Option<LogLevel> {
    if value == "Off"@ {
        Some(LogLevel::Off)
    } else if value == "Error"@ {
        Some(LogLevel::Error)
    } else if value == "Warn"@ {
        Some(LogLevel::Warn)
    } else if value == "Info"@ {
        Some(LogLevel::Info)
    } else if value == "Debug"@ {
        Some(LogLevel::Debug)
    } else if value == "Trace"@ {
        Some(LogLevel::Trace)
    } else {
        None
    }
}

/// The name of a logging level, as the configuration file writes it.
pub open spec fn level_name(l: LogLevel) -> Seq<char> {
    match l {
        LogLevel::Off => "Off"@,
        LogLevel::Error => "Error"@,
        LogLevel::Warn => "Warn"@,
        LogLevel::Info => "Info"@,
        LogLevel::Debug => "Debug"@,
        LogLevel::Trace => "Trace"@,
    }
}

/// Log level names: the six levels have six different names, each level's
/// own name reads as that level, and a text that reads as a level is that
/// level's name (anything else is refused).
pub proof fn lemma_log_level_names(l: LogLevel, m: LogLevel, v: Seq<char>)
    ensures
        log_level_of(level_name(l)) == Some(l),
        l != m ==> level_name(l) != level_name(m),
        log_level_of(v) matches Some(k) ==> v == level_name(k),
{
    reveal_strlit("Off");
    reveal_strlit("Error");
    reveal_strlit("Warn");
    reveal_strlit("Info");
    reveal_strlit("Debug");
    reveal_strlit("Trace");
    assert("Off"@.len() == 3 && "Error"@.len() == 5 && "Warn"@.len() == 4 && "Info"@.len() == 4);
    assert("Debug"@.len() == 5 && "Trace"@.len() == 5);
    assert("Warn"@[0] != "Info"@[0]);
    assert("Error"@[0] != "Debug"@[0] && "Error"@[0] != "Trace"@[0] && "Debug"@[0] != "Trace"@[0]);
}

/// What one line does to the values read so far; `number` counts from 1.
pub open spec fn apply_line(p: PartialView, line: Seq<char>, number: nat) -> Result<
    PartialView,
    ConfigErrorView,
> {
    let t = trim(line);
    if t.len() == 0 || t[0] == '#' {
        Ok(p)
    } else {
        match split_once(t, '=') {
            None => Err(ConfigErrorView::ExpectedKeyValue { line: number }),
            Some((k, v)) => {
                let key = trim(k);
                let value = trim(v);
                if key == key_name(ConfigKey::WebServerBindAddress) {
                    Ok(PartialView { bind_address: Some(value), ..p })
                } else if key == key_name(ConfigKey::WebServerBindPort) {
                    match parse_unsigned(value, 0xFFFF) {
                        Ok(n) => Ok(PartialView { bind_port: Some(n as u16), ..p }),
                        Err(e) => Err(
                            ConfigErrorView::InvalidValue {
                                line: number,
                                key: ConfigKey::WebServerBindPort,
                                reason: ValueError::Number(e),
                            },
                        ),
                    }
                } else if key == key_name(ConfigKey::ModbusSerialPort) {
                    Ok(PartialView { serial_port: Some(value), ..p })
                } else if key == key_name(ConfigKey::ModbusMock) {
                    match parse_bool(value) {
                        Some(b) => Ok(PartialView { mock: Some(port_mode_of(b)), ..p }),
                        None => Err(
                            ConfigErrorView::InvalidValue {
                                line: number,
                                key: ConfigKey::ModbusMock,
                                reason: ValueError::NotBool,
                            },
                        ),
                    }
                } else if key == key_name(ConfigKey::GeneralLogPath) {
                    Ok(PartialView { log_path: Some(value), ..p })
                } else if key == key_name(ConfigKey::GeneralLogLevel) {
                    match log_level_of(value) {
                        Some(l) => Ok(PartialView { log_level: Some(l), ..p }),
                        None => Err(ConfigErrorView::InvalidLogLevel { line: number, value }),
                    }
                } else if key == key_name(ConfigKey::GeneralLogToStdout) {
                    match parse_bool(value) {
                        Some(b) => Ok(PartialView { log_to_stdout: Some(b), ..p }),
                        None => Err(
                            ConfigErrorView::InvalidValue {
                                line: number,
                                key: ConfigKey::GeneralLogToStdout,
                                reason: ValueError::NotBool,
                            },
                        ),
                    }
                } else {
                    Err(ConfigErrorView::UnknownKey { line: number, name: key })
                }
            },
        }
    }
}

/// Applies lines in order, numbered from `first`; the first error stops.
pub open spec fn apply_lines(p: PartialView, ls: Seq<Seq<char>>, first: nat) -> Result<
    PartialView,
    ConfigErrorView,
>
    decreases ls.len(),
{
    if ls.len() == 0 {
        Ok(p)
    } else {
        match apply_line(p, ls[0], first) {
            Ok(q) => apply_lines(q, ls.drop_first(), first + 1),
            Err(e) => Err(e),
        }
    }
}

/// The configuration once every key is known; the first missing key, in
/// the order of the `Config` fields, is reported.
pub open spec fn build_config(p: PartialView) -> Result<ConfigView, ConfigErrorView> {
    if p.bind_address is None {
        Err(ConfigErrorView::MissingKey { key: ConfigKey::WebServerBindAddress })
    } else if p.bind_port is None {
        Err(ConfigErrorView::MissingKey { key: ConfigKey::WebServerBindPort })
    } else if p.serial_port is None {
        Err(ConfigErrorView::MissingKey { key: ConfigKey::ModbusSerialPort })
    } else if p.mock is None {
        Err(ConfigErrorView::MissingKey { key: ConfigKey::ModbusMock })
    } else if p.log_path is None {
        Err(ConfigErrorView::MissingKey { key: ConfigKey::GeneralLogPath })
    } else if p.log_level is None {
        Err(ConfigErrorView::MissingKey { key: ConfigKey::GeneralLogLevel })
    } else if p.log_to_stdout is None {
        Err(ConfigErrorView::MissingKey { key: ConfigKey::GeneralLogToStdout })
    } else {
        Ok(
            ConfigView {
                bind_address: p.bind_address.unwrap(),
                bind_port: p.bind_port.unwrap(),
                serial_port: p.serial_port.unwrap(),
                mock: p.mock.unwrap(),
                log_path: p.log_path.unwrap(),
                log_level: p.log_level.unwrap(),
                log_to_stdout: p.log_to_stdout.unwrap(),
            },
        )
    }
}

/// What reading a configuration text yields.
pub open spec fn config_of(text: Seq<char>) -> Result<ConfigView, ConfigErrorView> {
    match apply_lines(empty_partial(), lines(text), 1) {
        Ok(p) => build_config(p),
        Err(e) => Err(e),
    }
}

/// Optional values for every configuration item, filled while reading.
struct PartialConfig {
    web_server_bind_address: Option<String>,
    web_server_bind_port: Option<u16>,
    modbus_serial_port: Option<String>,
    modbus_mock: Option<ModbusPortMode>,
    general_log_path: Option<String>,
    general_log_level: Option<LogLevel>,
    general_log_to_stdout: Option<bool>,
}

pub open spec fn opt_view(o: Option<String>) -> Option<Seq<char>> {
    match o {
        Some(s) => Some(s@),
        None => None,
    }
}

impl View for PartialConfig {
    type V = PartialView;

    closed spec fn view(&self) -> PartialView {
        PartialView {
            bind_address: opt_view(self.web_server_bind_address),
            bind_port: self.web_server_bind_port,
            serial_port: opt_view(self.modbus_serial_port),
            mock: self.modbus_mock,
            log_path: opt_view(self.general_log_path),
            log_level: self.general_log_level,
            log_to_stdout: self.general_log_to_stdout,
        }
    }
}

impl PartialConfig {
    /// A partial configuration with no value set.
    fn new() -> (p: Self)
        ensures
            p@ == empty_partial(),
    {
        PartialConfig {
            web_server_bind_address: None,
            web_server_bind_port: None,
            modbus_serial_port: None,
            modbus_mock: None,
            general_log_path: None,
            general_log_level: None,
            general_log_to_stdout: None,
        }
    }

    /// Builds the configuration; fails on the first missing key.
    fn build(self) -> (r: Result<Config, ConfigError>)
        ensures
            match r {
                Ok(c) => build_config(self@) == Ok::<ConfigView, ConfigErrorView>(c@),
                Err(e) => build_config(self@) == Err::<ConfigView, ConfigErrorView>(e@),
            },
    {
        let bind_address = match Self::require(
            self.web_server_bind_address,
            ConfigKey::WebServerBindAddress,
        ) {
            Ok(v) => v,
            Err(e) => return Err(e),
        };
        let bind_port = match Self::require(self.web_server_bind_port, ConfigKey::WebServerBindPort) {
            Ok(v) => v,
            Err(e) => return Err(e),
        };
        let serial_port = match Self::require(self.modbus_serial_port, ConfigKey::ModbusSerialPort) {
            Ok(v) => v,
            Err(e) => return Err(e),
        };
        let mock = match Self::require(self.modbus_mock, ConfigKey::ModbusMock) {
            Ok(v) => v,
            Err(e) => return Err(e),
        };
        let log_path = match Self::require(self.general_log_path, ConfigKey::GeneralLogPath) {
            Ok(v) => v,
            Err(e) => return Err(e),
        };
        let log_level = match Self::require(self.general_log_level, ConfigKey::GeneralLogLevel) {
            Ok(v) => v,
            Err(e) => return Err(e),
        };
        let log_to_stdout = match Self::require(
            self.general_log_to_stdout,
            ConfigKey::GeneralLogToStdout,
        ) {
            Ok(v) => v,
            Err(e) => return Err(e),
        };
        Ok(
            Config {
                web_server: WebServerParameters { bind_address, bind_port },
                modbus: ModbusParameters { serial_port, mock },
                general: General { log_path, log_level, log_to_stdout },
            },
        )
    }

    /// The value, or the error that names the missing key.
    fn require<T>(value: Option<T>, key: ConfigKey) -> (r: Result<T, ConfigError>)
        ensures
            match value {
                Some(v) => r == Ok::<T, ConfigError>(v),
                None => r == Err::<T, ConfigError>(ConfigError::MissingKey { key }),
            },
    {
        match value {
            Some(v) => Ok(v),
            None => Err(ConfigError::MissingKey { key }),
        }
    }
}

/// The port mode that the `modbus.mock` flag selects.
pub fn port_mode(mock: bool) -> (m: ModbusPortMode)
    ensures
        m == port_mode_of(mock),
{
    if mock {
        ModbusPortMode::Mock
    } else {
        ModbusPortMode::Real
    }
}

/// Parses a log level name; the error gives the line and the value.
fn parse_log_level(value: &[char], line_number: usize) -> (r: Result<LogLevel, ConfigError>)
    ensures
        match log_level_of(value@) {
            Some(l) => r == Ok::<LogLevel, ConfigError>(l),
            None => r matches Err(e) && e@ == (ConfigErrorView::InvalidLogLevel {
                line: line_number as nat,
                value: value@,
            }),
        },
{
    if chars_equal(value, "Off") {
        Ok(LogLevel::Off)
    } else if chars_equal(value, "Error") {
        Ok(LogLevel::Error)
    } else if chars_equal(value, "Warn") {
        Ok(LogLevel::Warn)
    } else if chars_equal(value, "Info") {
        Ok(LogLevel::Info)
    } else if chars_equal(value, "Debug") {
        Ok(LogLevel::Debug)
    } else if chars_equal(value, "Trace") {
        Ok(LogLevel::Trace)
    } else {
        Err(ConfigError::InvalidLogLevel { line: line_number, value: string_of(value) })
    }
}

/// Parses a port number; the error gives the line, the key and the reason.
fn parse_value(value: &[char], key: ConfigKey, line_number: usize) -> (r: Result<u16, ConfigError>)
    ensures
        match parse_unsigned(value@, 0xFFFF) {
            Ok(n) => r == Ok::<u16, ConfigError>(n as u16),
            Err(e) => r == Err::<u16, ConfigError>(
                ConfigError::InvalidValue { line: line_number, key, reason: ValueError::Number(e) },
            ),
        },
{
    match parse_unsigned_chars(value, 0xFFFF) {
        Ok(n) => Ok(n as u16),
        Err(e) => Err(
            ConfigError::InvalidValue { line: line_number, key, reason: ValueError::Number(e) },
        ),
    }
}

/// Parses a `true`/`false` flag; the error gives the line and the key.
fn parse_flag(value: &[char], key: ConfigKey, line_number: usize) -> (r: Result<bool, ConfigError>)
    ensures
        match parse_bool(value@) {
            Some(b) => r == Ok::<bool, ConfigError>(b),
            None => r == Err::<bool, ConfigError>(
                ConfigError::InvalidValue { line: line_number, key, reason: ValueError::NotBool },
            ),
        },
{
    match parse_bool_chars(value) {
        Some(b) => Ok(b),
        None => Err(ConfigError::InvalidValue { line: line_number, key, reason: ValueError::NotBool }),
    }
}

/// Applies one line to the values read so far.
fn apply_config_line(partial: &mut PartialConfig, line: &[char], line_number: usize) -> (r: Result<
    (),
    ConfigError,
>)
    ensures
        match r {
            Ok(_) => apply_line(old(partial)@, line@, line_number as nat) == Ok::<
                PartialView,
                ConfigErrorView,
            >(final(partial)@),
            Err(e) => apply_line(old(partial)@, line@, line_number as nat) == Err::<
                PartialView,
                ConfigErrorView,
            >(e@),
        },
{
    let t = trim_chars(line, CharClass::Whitespace);
    if t.len() == 0 || t[0] == '#' {
        return Ok(());
    }
    let (k, v) = match split_once_chars(t.as_slice(), '=') {
        Some(kv) => kv,
        None => return Err(ConfigError::ExpectedKeyValue { line: line_number }),
    };
    let key = trim_chars(k.as_slice(), CharClass::Whitespace);
    let value = trim_chars(v.as_slice(), CharClass::Whitespace);
    if chars_equal(key.as_slice(), ConfigKey::WebServerBindAddress.name()) {
        partial.web_server_bind_address = Some(string_of(value.as_slice()));
    } else if chars_equal(key.as_slice(), ConfigKey::WebServerBindPort.name()) {
        let port = parse_value(value.as_slice(), ConfigKey::WebServerBindPort, line_number)?;
        partial.web_server_bind_port = Some(port);
    } else if chars_equal(key.as_slice(), ConfigKey::ModbusSerialPort.name()) {
        partial.modbus_serial_port = Some(string_of(value.as_slice()));
    } else if chars_equal(key.as_slice(), ConfigKey::ModbusMock.name()) {
        let mock = parse_flag(value.as_slice(), ConfigKey::ModbusMock, line_number)?;
        partial.modbus_mock = Some(port_mode(mock));
    } else if chars_equal(key.as_slice(), ConfigKey::GeneralLogPath.name()) {
        partial.general_log_path = Some(string_of(value.as_slice()));
    } else if chars_equal(key.as_slice(), ConfigKey::GeneralLogLevel.name()) {
        let level = parse_log_level(value.as_slice(), line_number)?;
        partial.general_log_level = Some(level);
    } else if chars_equal(key.as_slice(), ConfigKey::GeneralLogToStdout.name()) {
        let flag = parse_flag(value.as_slice(), ConfigKey::GeneralLogToStdout, line_number)?;
        partial.general_log_to_stdout = Some(flag);
    } else {
        return Err(ConfigError::UnknownKey { line: line_number, name: string_of(key.as_slice()) });
    }
    Ok(())
}

/// Reads a configuration text: every line in order, then every key required.
pub fn parse_config(text: &str) -> (r: Result<Config, ConfigError>)
    ensures
        match r {
            Ok(c) => config_of(text@) == Ok::<ConfigView, ConfigErrorView>(c@),
            Err(e) => config_of(text@) == Err::<ConfigView, ConfigErrorView>(e@),
        },
{
    let chars = chars_of(text);
    let all = split_lines(chars.as_slice());
    let ghost ls = lines(text@);
    let mut partial = PartialConfig::new();
    let mut index: usize = 0;
    assert(ls.skip(0) =~= ls);
    while index < all.len()
        invariant
            views(all@) == ls,
            ls == lines(text@),
            index <= all@.len(),
            apply_lines(empty_partial(), ls, 1) == apply_lines(
                partial@,
                ls.skip(index as int),
                index as nat + 1,
            ),
        decreases all@.len() - index,
    {
        let ghost before = partial@;
        assert(ls.skip(index as int)[0] == all@[index as int]@);
        assert(ls.skip(index as int).drop_first() =~= ls.skip(index + 1));
        let line_number = index + 1;
        match apply_config_line(&mut partial, all[index].as_slice(), line_number) {
            Ok(()) => {},
            Err(e) => {
                assert(apply_line(before, ls.skip(index as int)[0], index as nat + 1) == Err::<
                    PartialView,
                    ConfigErrorView,
                >(e@));
                assert(apply_lines(before, ls.skip(index as int), index as nat + 1) == Err::<
                    PartialView,
                    ConfigErrorView,
                >(e@));
                return Err(e);
            },
        }
        index = index + 1;
    }
    assert(ls.skip(index as int) =~= Seq::<Seq<char>>::empty());
    partial.build()
}

/// The configuration file path given as `--config=<path>` among the
/// command-line arguments: the first argument with that prefix, cut after
/// its first `=`.
pub open spec fn config_path_of(args: Seq<Seq<char>>) -> Option<Seq<char>>
    decreases args.len(),
{
    if args.len() == 0 {
        None
    } else if crate::text::starts_with(args[0], "--config="@) {
        match split_once(args[0], '=') {
            Some((_, path)) => Some(path),
            None => None,
        }
    } else {
        config_path_of(args.drop_first())
    }
}

/// Finds the configuration file path among the command-line arguments.
pub fn config_path(args: &[String]) -> (r: Option<String>)
    ensures
        match r {
            Some(p) => config_path_of(args@.map_values(|a: String| a@)) == Some(p@),
            None => config_path_of(args@.map_values(|a: String| a@)) is None,
        },
{
    let ghost all = args@.map_values(|a: String| a@);
    let prefix = chars_of("--config=");
    let mut i: usize = 0;
    assert(all.skip(0) =~= all);
    while i < args.len()
        invariant
            i <= args@.len(),
            all == args@.map_values(|a: String| a@),
            prefix@ == "--config="@,
            config_path_of(all) == config_path_of(all.skip(i as int)),
        decreases args@.len() - i,
    {
        let arg = chars_of(args[i].as_str());
        assert(all.skip(i as int)[0] == arg@);
        assert(all.skip(i as int).drop_first() =~= all.skip(i + 1));
        if crate::text::starts_with_chars(arg.as_slice(), prefix.as_slice()) {
            return match split_once_chars(arg.as_slice(), '=') {
                Some((_, path)) => Some(string_of(path.as_slice())),
                None => None,
            };
        }
        i = i + 1;
    }
    None
}

} // verus!
