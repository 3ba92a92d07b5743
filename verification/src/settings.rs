//! The settings of a simulator process.
//!
//! The settings come from the environment of the process. Reading the
//! environment is left to the caller, who hands it over as a list of names
//! and values; what the settings are is decided here.

use crate::interval::Interval;
use crate::message::{parse_rfc3339, rfc3339_time, text_view, Timestamp};
use crate::simulation::SimulationParameters;
use crate::text::{characters, parse_unsigned, unsigned_value};
use vstd::prelude::*;
use vstd::string::*;

verus! {

/// The settings of a simulator process.
#[derive(Debug)]
pub struct Settings {
    /// The number of devices.
    pub sim_devices: usize,
    /// The number of data points of each device.
    pub sim_data_points: usize,
    /// The seconds from the start of one cycle to the start of the next.
    pub sim_frequency_secs: u64,
    /// The moment at which the first cycle shall start, if one is set.
    pub sim_start_time: Option<Timestamp>,
    /// The number of cycles to run.
    pub sim_runs: usize,
    /// The seed of all random values.
    pub sim_seed: u64,
    /// The address of the broker.
    pub broker_url: String,
    /// The name to log in with at the broker.
    pub broker_user: String,
    /// The password to log in with at the broker.
    pub broker_pass: String,
    /// The name of this simulator instance.
    pub broker_client_id: String,
    /// The quality of service to publish with.
    pub broker_qos: u8,
    /// The address of the collector of traces and metrics, if there is one.
    pub otlp_collector: Option<String>,
    /// What authorizes this process at the collector, if anything.
    pub otlp_auth: Option<String>,
    /// The number of requests to the broker that may be in flight.
    pub capacity: usize,
}

/// `Settings` with their texts as sequences of characters.
pub struct SettingsModel {
    pub sim_devices: usize,
    pub sim_data_points: usize,
    pub sim_frequency_secs: u64,
    pub sim_start_time: Option<Timestamp>,
    pub sim_runs: usize,
    pub sim_seed: u64,
    pub broker_url: Seq<char>,
    pub broker_user: Seq<char>,
    pub broker_pass: Seq<char>,
    pub broker_client_id: Seq<char>,
    pub broker_qos: u8,
    pub otlp_collector: Option<Seq<char>>,
    pub otlp_auth: Option<Seq<char>>,
    pub capacity: usize,
}

impl View for Settings {
    type V = SettingsModel;

    open spec fn view(&self) -> SettingsModel {
        SettingsModel {
            sim_devices: self.sim_devices,
            sim_data_points: self.sim_data_points,
            sim_frequency_secs: self.sim_frequency_secs,
            sim_start_time: self.sim_start_time,
            sim_runs: self.sim_runs,
            sim_seed: self.sim_seed,
            broker_url: self.broker_url@,
            broker_user: self.broker_user@,
            broker_pass: self.broker_pass@,
            broker_client_id: self.broker_client_id@,
            broker_qos: self.broker_qos,
            otlp_collector: text_view(self.otlp_collector),
            otlp_auth: text_view(self.otlp_auth),
            capacity: self.capacity,
        }
    }
}

/// Why an environment gives no settings.
#[derive(Clone, Copy, Debug, PartialEq, Eq, Structural)]
pub enum SettingsErr {
    /// A variable that shall hold a number holds something else, or a number
    /// that is too large.
    InvalidNumber,
    /// The variable that shall hold a moment holds something else.
    InvalidTime,
}

/// An environment with its texts as sequences of characters.
pub open spec fn environment_view(environment: Seq<(String, String)>) -> Seq<
    (Seq<char>, Seq<char>),
> {
    Seq::new(environment.len(), |i: int| (environment[i].0@, environment[i].1@))
}

/// The value of the variable `name` in `environment`: that of the first entry
/// of this name, if there is one.
pub open spec fn lookup(environment: Seq<(Seq<char>, Seq<char>)>, name: Seq<char>) -> Option<
    Seq<char>,
>
    decreases environment.len(),
{
    if environment.len() == 0 {
        None
    } else if environment[0].0 == name {
        Some(environment[0].1)
    } else {
        lookup(environment.drop_first(), name)
    }
}

/// The text that the variable `name` stands for: its value, and `default`
/// where it is not set.
pub open spec fn text_setting(
    environment: Seq<(Seq<char>, Seq<char>)>,
    name: Seq<char>,
    default: Seq<char>,
) -> Seq<char> {
    match lookup(environment, name) {
        Some(value) => value,
        None => default,
    }
}

/// The number that the variable `name` stands for: the one that its value
/// writes in decimal, and `default` where it is not set. `None` where the
/// value is no numeral or writes a number above `usize::MAX`.
pub open spec fn number_setting(
    environment: Seq<(Seq<char>, Seq<char>)>,
    name: Seq<char>,
    default: usize,
) -> Option<usize> {
    match lookup(environment, name) {
        Some(value) => match unsigned_value(value, usize::MAX as nat) {
            Some(n) => Some(n as usize),
            None => None,
        },
        None => Some(default),
    }
}

/// The moment that `found` stands for, `found` being what was read from the
/// value of a variable, if it is set: that moment, and `default` where the
/// variable is not set. An error where the value was no moment.
pub open spec fn chosen_time(found: Option<Option<Timestamp>>, default: Option<Timestamp>) -> Result<
    Option<Timestamp>,
    SettingsErr,
> {
    match found {
        Some(Some(time)) => Ok(Some(time)),
        Some(None) => Err(SettingsErr::InvalidTime),
        None => Ok(default),
    }
}

/// The moment that the variable `name` stands for: the one that its value
/// writes as RFC 3339 asks, and `default` where it is not set.
pub open spec fn time_setting(
    environment: Seq<(Seq<char>, Seq<char>)>,
    name: Seq<char>,
    default: Option<Timestamp>,
) -> Result<Option<Timestamp>, SettingsErr> {
    chosen_time(
        match lookup(environment, name) {
            Some(value) => Some(rfc3339_time(value)),
            None => None,
        },
        default,
    )
}

/// The numbers among the settings, in the order in which they are read: the
/// first that is no number decides.
pub open spec fn numbers_are_valid(environment: Seq<(Seq<char>, Seq<char>)>) -> bool {
    &&& number_setting(environment, "SIM_DEVICES"@, 100) is Some
    &&& number_setting(environment, "SIM_DATA_POINTS"@, 100) is Some
    &&& number_setting(environment, "SIM_SEED"@, 0) is Some
    &&& number_setting(environment, "SIM_FREQUENCY_SECS"@, 1) is Some
}

/// The settings that `environment` gives. A variable that is not set stands
/// for its default. The variables are read in a fixed order, and the first
/// whose value cannot be read decides the error: the numbers of the
/// simulation, the start time, the number of cycles, the quality of service
/// and the capacity.
pub open spec fn settings_of(environment: Seq<(Seq<char>, Seq<char>)>) -> Result<
    SettingsModel,
    SettingsErr,
> {
    if !numbers_are_valid(environment) {
        Err(SettingsErr::InvalidNumber)
    } else if time_setting(environment, "SIM_START_TIME"@, None) is Err {
        Err(SettingsErr::InvalidTime)
    } else if number_setting(environment, "SIM_RUNS"@, usize::MAX) is None || number_setting(
        environment,
        "BROKER_QOS"@,
        1,
    ) is None || number_setting(environment, "CAPACITY"@, 1000) is None {
        Err(SettingsErr::InvalidNumber)
    } else {
        Ok(
            SettingsModel {
                sim_devices: number_setting(environment, "SIM_DEVICES"@, 100)->0,
                sim_data_points: number_setting(environment, "SIM_DATA_POINTS"@, 100)->0,
                sim_frequency_secs: number_setting(environment, "SIM_FREQUENCY_SECS"@, 1)->0 as u64,
                sim_start_time: time_setting(environment, "SIM_START_TIME"@, None)->Ok_0,
                sim_runs: number_setting(environment, "SIM_RUNS"@, usize::MAX)->0,
                sim_seed: number_setting(environment, "SIM_SEED"@, 0)->0 as u64,
                broker_url: text_setting(environment, "BROKER_URL"@, "mqtt://localhost:1883"@),
                broker_user: text_setting(environment, "BROKER_USER"@, "mqtt"@),
                broker_pass: text_setting(environment, "BROKER_PASS"@, "pass"@),
                broker_client_id: text_setting(environment, "BROKER_CLIENT_ID"@, "rumsim-0"@),
                broker_qos: (number_setting(environment, "BROKER_QOS"@, 1)->0 % 256) as u8,
                otlp_collector: lookup(environment, "OTLP_ENDPOINT"@),
                otlp_auth: lookup(environment, "OLTP_AUTH"@),
                capacity: number_setting(environment, "CAPACITY"@, 1000)->0,
            },
        )
    }
}

/// Where the variable `name` stands in `environment`.
fn position(environment: &Vec<(String, String)>, name: &str) -> (found: Option<usize>)
    ensures
        match found {
            Some(i) => i < environment.len() && lookup(environment_view(environment@), name@)
                == Some(environment@[i as int].1@),
            None => lookup(environment_view(environment@), name@) is None,
        },
{
    let wanted = String::from_str(name);
    let ghost all = environment_view(environment@);
    let mut i: usize = 0;
    assert(all.skip(0) == all);
    while i < environment.len()
        invariant
            i <= environment.len(),
            wanted@ == name@,
            all == environment_view(environment@),
            lookup(all, name@) == lookup(all.skip(i as int), name@),
        decreases environment.len() - i,
    {
        let ghost rest = all.skip(i as int);
        if environment[i].0 == wanted {
            return Some(i);
        }
        assert(rest.drop_first() == all.skip(i + 1));
        i += 1;
    }
    None
}

/// The value of the variable `name`, if it is set.
pub fn find(environment: &Vec<(String, String)>, name: &str) -> (value: Option<String>)
    ensures
        text_view(value) == lookup(environment_view(environment@), name@),
{
    match position(environment, name) {
        Some(i) => Some(environment[i].1.clone()),
        None => None,
    }
}

/// The text that the variable `env_variable` stands for.
pub fn get(environment: &Vec<(String, String)>, env_variable: &str, default: &str) -> (value:
    String)
    ensures
        value@ == text_setting(environment_view(environment@), env_variable@, default@),
{
    match position(environment, env_variable) {
        Some(i) => environment[i].1.clone(),
        None => String::from_str(default),
    }
}

/// The number that the variable `env_variable` stands for.
pub fn get_num(environment: &Vec<(String, String)>, env_variable: &str, default: usize) -> (value:
    Result<usize, SettingsErr>)
    ensures
        match number_setting(environment_view(environment@), env_variable@, default) {
            Some(n) => value == Ok::<usize, SettingsErr>(n),
            None => value == Err::<usize, SettingsErr>(SettingsErr::InvalidNumber),
        },
{
    match position(environment, env_variable) {
        Some(i) => {
            let text = characters(environment[i].1.as_str());
            match parse_unsigned(&text, usize::MAX as u64) {
                Some(n) => Ok(n as usize),
                None => Err(SettingsErr::InvalidNumber),
            }
        },
        None => Ok(default),
    }
}

/// Chooses between the moment read from a variable and the default.
pub fn choose_time(found: Option<Option<Timestamp>>, default: Option<Timestamp>) -> (time: Result<
    Option<Timestamp>,
    SettingsErr,
>)
    ensures
        time == chosen_time(found, default),
{
    match found {
        Some(Some(time)) => Ok(Some(time)),
        Some(None) => Err(SettingsErr::InvalidTime),
        None => Ok(default),
    }
}

/// The moment that the variable `env_variable` stands for.
pub fn get_time(
    environment: &Vec<(String, String)>,
    env_variable: &str,
    default: Option<Timestamp>,
) -> (time: Result<Option<Timestamp>, SettingsErr>)
    ensures
        time == time_setting(environment_view(environment@), env_variable@, default),
{
    let found = match position(environment, env_variable) {
        Some(i) => Some(parse_rfc3339(environment[i].1.as_str())),
        None => None,
    };
    choose_time(found, default)
}

impl Settings {
    /// The settings that `environment` gives.
    pub fn new(environment: &Vec<(String, String)>) -> (settings: Result<Settings, SettingsErr>)
        ensures
            match settings_of(environment_view(environment@)) {
                Ok(model) => settings is Ok && settings->Ok_0@ == model,
                Err(reason) => settings is Err && settings->Err_0 == reason,
            },
    {
        let sim_devices = match get_num(environment, "SIM_DEVICES", 100) {
            Ok(n) => n,
            Err(reason) => {
                return Err(reason);
            },
        };
        let sim_data_points = match get_num(environment, "SIM_DATA_POINTS", 100) {
            Ok(n) => n,
            Err(reason) => {
                return Err(reason);
            },
        };
        let sim_seed = match get_num(environment, "SIM_SEED", 0) {
            Ok(n) => n as u64,
            Err(reason) => {
                return Err(reason);
            },
        };
        let sim_frequency_secs = match get_num(environment, "SIM_FREQUENCY_SECS", 1) {
            Ok(n) => n as u64,
            Err(reason) => {
                return Err(reason);
            },
        };
        let sim_start_time = match get_time(environment, "SIM_START_TIME", None) {
            Ok(time) => time,
            Err(reason) => {
                return Err(reason);
            },
        };
        let sim_runs = match get_num(environment, "SIM_RUNS", usize::MAX) {
            Ok(n) => n,
            Err(reason) => {
                return Err(reason);
            },
        };
        let broker_qos = match get_num(environment, "BROKER_QOS", 1) {
            Ok(n) => (n % 256) as u8,
            Err(reason) => {
                return Err(reason);
            },
        };
        let capacity = match get_num(environment, "CAPACITY", 1000) {
            Ok(n) => n,
            Err(reason) => {
                return Err(reason);
            },
        };
        Ok(
            Settings {
                sim_devices,
                sim_data_points,
                sim_frequency_secs,
                sim_start_time,
                sim_runs,
                sim_seed,
                broker_url: get(environment, "BROKER_URL", "mqtt://localhost:1883"),
                broker_user: get(environment, "BROKER_USER", "mqtt"),
                broker_pass: get(environment, "BROKER_PASS", "pass"),
                broker_client_id: get(environment, "BROKER_CLIENT_ID", "rumsim-0"),
                broker_qos,
                otlp_collector: find(environment, "OTLP_ENDPOINT"),
                otlp_auth: find(environment, "OLTP_AUTH"),
                capacity,
            },
        )
    }
}

/// The parameters of the simulation that the settings ask for.
pub fn get_parameters(settings: &Settings) -> (parameters: SimulationParameters)
    ensures
        parameters == (SimulationParameters {
            devices: settings.sim_devices,
            data_points: settings.sim_data_points,
            wait_time: Interval::from_secs(settings.sim_frequency_secs),
            seed: settings.sim_seed,
        }),
{
    SimulationParameters {
        devices: settings.sim_devices,
        data_points: settings.sim_data_points,
        wait_time: Interval::from_secs(settings.sim_frequency_secs),
        seed: settings.sim_seed,
    }
}

/// The address at which the simulator instance `client_id` reaches the broker
/// at `url`.
pub open spec fn connection_address(url: Seq<char>, client_id: Seq<char>) -> Seq<char> {
    url + "?client_id="@ + client_id
}

/// The address to connect to: that of the broker, with the name of this
/// simulator instance as the name of the client.
pub fn connection_url(settings: &Settings) -> (url: String)
    ensures
        url@ == connection_address(settings.broker_url@, settings.broker_client_id@),
{
    let mut url = settings.broker_url.clone();
    url.append("?client_id=");
    url.append(settings.broker_client_id.as_str());
    url
}

/// How surely a message reaches the broker.
#[derive(Clone, Copy, Debug, PartialEq, Eq, Structural)]
pub enum Qos {
    AtMostOnce,
    AtLeastOnce,
    ExactlyOnce,
}

/// The largest quality of service level.
pub const MAX_QOS_LEVEL: u8 = 2;

/// The quality of service number `level`. There are the levels 0, 1 and 2,
/// and no other number is a level.
pub fn get_qos(level: u8) -> (qos: Qos)
    requires
        level <= MAX_QOS_LEVEL,
    ensures
        qos == match level {
            0 => Qos::AtMostOnce,
            1 => Qos::AtLeastOnce,
            _ => Qos::ExactlyOnce,
        },
{
    match level {
        0 => Qos::AtMostOnce,
        1 => Qos::AtLeastOnce,
        _ => Qos::ExactlyOnce,
    }
}

/// What is shown of the secret `s`: its first and its last character, with
/// an ellipsis between them.
pub open spec fn anonymized(s: Seq<char>) -> Seq<char> {
    s.subrange(0, 1) + "\u{2026}"@ + s.subrange(s.len() - 1, s.len() as int)
}

/// Hides all of the secret `s` but its first and its last character.
pub fn anonymize(s: &str) -> (shown: String)
    requires
        s@.len() > 0,
    ensures
        shown@ == anonymized(s@),
{
    let n: usize = s.unicode_len();
    let mut shown = String::from_str(s.substring_char(0, 1));
    shown.append("\u{2026}");
    shown.append(s.substring_char(n - 1, n));
    shown
}

/// Hides all of a secret but its first and its last character, and says so
/// where there is no secret.
pub fn anonymize_opt(s: &Option<String>) -> (shown: String)
    requires
        s matches Some(secret) ==> secret@.len() > 0,
    ensures
        shown@ == match s {
            Some(secret) => anonymized(secret@),
            None => "None"@,
        },
{
    match s {
        Some(secret) => anonymize(secret.as_str()),
        None => String::from_str("None"),
    }
}

} // verus!
