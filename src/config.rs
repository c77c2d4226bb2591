//! Broker and sensor configuration, built from the values of the process
//! environment.
use vstd::prelude::*;

verus! {

/// The raw values of the configuration variables, `None` where unset.
pub struct ConfigVars {
    pub mqtt_server: Option<String>,
    pub mqtt_port: Option<String>,
    pub mqtt_client_id: Option<String>,
    pub mqtt_username: Option<String>,
    pub mqtt_password: Option<String>,
    pub device_name: Option<String>,
    pub mqtt_persistence_file: Option<String>,
    pub pir_pin: Option<String>,
}

/// Why no configuration can be built.
#[derive(Clone, Copy, Debug, PartialEq, Eq, Structural)]
pub enum ConfigError {
    /// The client id, which names this device to the broker, is unset.
    MissingClientId,
    /// The device name is unset.
    MissingDeviceName,
    /// The GPIO pin of the sensor is unset.
    MissingPirPin,
    /// The GPIO pin is not a decimal number from 0 to 255.
    InvalidPirPin,
}

/// Broker connection settings, discovery message and topics of one device.
pub struct Config {
    /// The device name.
    pub device_name: String,
    /// The broker address, `server:port`.
    pub mqtt_server: String,
    /// The broker port.
    pub mqtt_port: String,
    /// The broker user name.
    pub mqtt_username: String,
    /// The broker password.
    pub mqtt_password: String,
    /// The discovery message that announces the sensor.
    pub config_payload: String,
    /// The topic of the discovery message.
    pub config_topic: String,
    /// The topic of the occupancy state.
    pub motion_topic: String,
    /// Where the MQTT client keeps its persistence data.
    pub mqtt_persistence_file: String,
    /// The client id of this device.
    pub mqtt_client_id: String,
    /// The GPIO pin of the PIR sensor.
    pub pir_pin: u8,
}

pub open spec fn is_digit(c: char) -> bool {
    '0' <= c && c <= '9'
}

/// The number that a string of decimal digits writes.
pub open spec fn digits_value(s: Seq<char>) -> nat
    decreases s.len(),
{
    if s.len() == 0 {
        0
    } else {
        digits_value(s.drop_last()) * 10 + (s.last() as nat - '0' as nat) as nat
    }
}

/// The digits of a pin number: what follows an optional leading `+`.
pub open spec fn pin_digits(s: Seq<char>) -> Seq<char> {
    if s.len() > 0 && s[0] == '+' {
        s.drop_first()
    } else {
        s
    }
}

/// The pin that `s` names: one or more decimal digits after an optional
/// `+`, with a value that fits a `u8`.
pub open spec fn pin_of(s: Seq<char>) -> Option<u8> {
    let d = pin_digits(s);
    if d.len() > 0 && (forall|i: int| 0 <= i < d.len() ==> is_digit(#[trigger] d[i]))
        && digits_value(d) <= 255 {
        Some(digits_value(d) as u8)
    } else {
        None
    }
}

/// The value of a variable, or its default where it is unset.
pub open spec fn or_default(v: Option<String>, default: Seq<char>) -> Seq<char> {
    match v {
        Some(s) => s@,
        None => default,
    }
}

/// The topic under which the sensor announces itself.
pub open spec fn config_topic_of(device: Seq<char>) -> Seq<char> {
    "homeassistant/binary_sensor/"@ + device + "/config"@
}

/// The topic of the occupancy state.
pub open spec fn motion_topic_of(device: Seq<char>) -> Seq<char> {
    "homeassistant/binary_sensor/"@ + device + "/state"@
}

/// The discovery message: a binary motion sensor named after the device,
/// with a unique id made of client id and device name, and its state topic.
pub open spec fn config_payload_of(device: Seq<char>, client: Seq<char>) -> Seq<char> {
    "{\"name\": \""@ + device + "_motion\", \"device_class\": \"motion\", \"unique_id\": \""@
        + client + "_"@ + device + "_id\", \"state_topic\": \""@ + motion_topic_of(device)
        + "\"}"@
}

/// The error that `vars` are refused with, the client id checked first,
/// then the device name, then the pin.
pub open spec fn config_error(vars: ConfigVars) -> Option<ConfigError> {
    if vars.mqtt_client_id.is_none() {
        Some(ConfigError::MissingClientId)
    } else if vars.device_name.is_none() {
        Some(ConfigError::MissingDeviceName)
    } else if vars.pir_pin.is_none() {
        Some(ConfigError::MissingPirPin)
    } else if pin_of(vars.pir_pin.unwrap()@).is_none() {
        Some(ConfigError::InvalidPirPin)
    } else {
        None
    }
}

/// `c` is the configuration that `vars` describe, the defaults filling the
/// optional variables.
pub open spec fn built_from(c: Config, vars: ConfigVars) -> bool {
    let device = vars.device_name.unwrap()@;
    let client = vars.mqtt_client_id.unwrap()@;
    let port = or_default(vars.mqtt_port, "1883"@);
    &&& c.device_name@ == device
    &&& c.mqtt_client_id@ == client
    &&& c.mqtt_port@ == port
    &&& c.mqtt_server@ == or_default(vars.mqtt_server, "mqtt://localhost"@) + ":"@ + port
    &&& c.mqtt_username@ == or_default(vars.mqtt_username, "iot"@)
    &&& c.mqtt_password@ == or_default(vars.mqtt_password, "password"@)
    &&& c.mqtt_persistence_file@ == or_default(
        vars.mqtt_persistence_file,
        "/tmp/mqtt_persistence_file"@,
    )
    &&& c.config_topic@ == config_topic_of(device)
    &&& c.motion_topic@ == motion_topic_of(device)
    &&& c.config_payload@ == config_payload_of(device, client)
    &&& Some(c.pir_pin) == pin_of(vars.pir_pin.unwrap()@)
}

impl Config {
    /// Builds the configuration from the variables: the client id, the
    /// device name and the pin are required, the others have defaults.
    pub fn new(vars: ConfigVars) -> (r: Result<Config, ConfigError>)
        ensures
            match r {
                Ok(c) => config_error(vars).is_none() && built_from(c, vars),
                Err(e) => config_error(vars) == Some(e),
            },
    {
        let ConfigVars {
            mqtt_server,
            mqtt_port,
            mqtt_client_id,
            mqtt_username,
            mqtt_password,
            device_name,
            mqtt_persistence_file,
            pir_pin,
        } = vars;
        let mqtt_client_id = match mqtt_client_id {
            Some(v) => v,
            None => return Err(ConfigError::MissingClientId),
        };
        let device_name = match device_name {
            Some(v) => v,
            None => return Err(ConfigError::MissingDeviceName),
        };
        let pir_pin = match pir_pin {
            Some(v) => match parse_pin(v.as_str()) {
                Some(p) => p,
                None => return Err(ConfigError::InvalidPirPin),
            },
            None => return Err(ConfigError::MissingPirPin),
        };
        let mqtt_port = match mqtt_port {
            Some(v) => v,
            None => String::from_str("1883"),
        };
        let server_url = match mqtt_server {
            Some(v) => v,
            None => String::from_str("mqtt://localhost"),
        };
        let mqtt_server = server_url.concat(":").concat(mqtt_port.as_str());
        let mqtt_username = match mqtt_username {
            Some(v) => v,
            None => String::from_str("iot"),
        };
        let mqtt_password = match mqtt_password {
            Some(v) => v,
            None => String::from_str("password"),
        };
        let mqtt_persistence_file = match mqtt_persistence_file {
            Some(v) => v,
            None => String::from_str("/tmp/mqtt_persistence_file"),
        };
        let device = device_name.as_str();
        let config_topic = String::from_str("homeassistant/binary_sensor/").concat(device).concat(
            "/config",
        );
        let motion_topic = String::from_str("homeassistant/binary_sensor/").concat(device).concat(
            "/state",
        );
        let config_payload = String::from_str("{\"name\": \"").concat(device).concat(
            "_motion\", \"device_class\": \"motion\", \"unique_id\": \"",
        ).concat(mqtt_client_id.as_str()).concat("_").concat(device).concat(
            "_id\", \"state_topic\": \"",
        ).concat(motion_topic.as_str()).concat("\"}");
        Ok(
            Config {
                device_name,
                mqtt_server,
                mqtt_port,
                mqtt_username,
                mqtt_password,
                config_payload,
                config_topic,
                motion_topic,
                mqtt_persistence_file,
                mqtt_client_id,
                pir_pin,
            },
        )
    }
}

impl Clone for Config {
    /// A copy with every field equal to this one's.
    fn clone(&self) -> (r: Self)
        ensures
            r.device_name@ == self.device_name@,
            r.mqtt_server@ == self.mqtt_server@,
            r.mqtt_port@ == self.mqtt_port@,
            r.mqtt_username@ == self.mqtt_username@,
            r.mqtt_password@ == self.mqtt_password@,
            r.config_payload@ == self.config_payload@,
            r.config_topic@ == self.config_topic@,
            r.motion_topic@ == self.motion_topic@,
            r.mqtt_persistence_file@ == self.mqtt_persistence_file@,
            r.mqtt_client_id@ == self.mqtt_client_id@,
            r.pir_pin == self.pir_pin,
    {
        Config {
            device_name: self.device_name.clone(),
            mqtt_server: self.mqtt_server.clone(),
            mqtt_port: self.mqtt_port.clone(),
            mqtt_username: self.mqtt_username.clone(),
            mqtt_password: self.mqtt_password.clone(),
            config_payload: self.config_payload.clone(),
            config_topic: self.config_topic.clone(),
            motion_topic: self.motion_topic.clone(),
            mqtt_persistence_file: self.mqtt_persistence_file.clone(),
            mqtt_client_id: self.mqtt_client_id.clone(),
            pir_pin: self.pir_pin,
        }
    }
}

/// Reads a pin number: one or more decimal digits after an optional `+`,
/// at most 255.
pub fn parse_pin(s: &str) -> (r: Option<u8>)
    ensures
        r == pin_of(s@),
{
    let n = s.unicode_len();
    let mut i: usize = 0;
    if n > 0 && s.get_char(0) == '+' {
        i = 1;
    }
    let ghost d = pin_digits(s@);
    let start = i;
    if start == n {
        return None;
    }
    let mut value: u32 = 0;
    while i < n
        invariant
            start <= i <= n,
            n == s@.len(),
            start < n,
            d == pin_digits(s@),
            d == s@.subrange(start as int, n as int),
            forall|j: int| 0 <= j < i - start ==> is_digit(#[trigger] d[j]),
            value as nat == digits_value(d.subrange(0, i - start)),
            value <= 255,
        decreases n - i,
    {
        let c = s.get_char(i);
        assert(d[i - start] == c);
        if c < '0' || c > '9' {
            assert(!(forall|j: int| 0 <= j < d.len() ==> is_digit(#[trigger] d[j])));
            return None;
        }
        let next = value * 10 + (c as u32 - '0' as u32);
        proof {
            let p = d.subrange(0, i + 1 - start);
            assert(p.drop_last() =~= d.subrange(0, i - start));
        }
        if next > 255 {
            proof {
                lemma_digits_value_grows(d, i + 1 - start);
                assert(digits_value(d) > 255);
            }
            return None;
        }
        value = next;
        i = i + 1;
    }
    assert(d.subrange(0, n - start) =~= d);
    Some(value as u8)
}

/// Appending digits never makes the value smaller.
proof fn lemma_digits_value_grows(d: Seq<char>, k: int)
    requires
        0 <= k <= d.len(),
    ensures
        digits_value(d.subrange(0, k)) <= digits_value(d),
    decreases d.len() - k,
{
    if k < d.len() {
        lemma_digits_value_grows(d, k + 1);
        assert(d.subrange(0, k + 1).drop_last() =~= d.subrange(0, k));
    } else {
        assert(d.subrange(0, k) =~= d);
    }
}

} // verus!
