//! The settings of one run: which record types to keep up to date, the host and
//! zone lists, and whether to repeat.
use vstd::prelude::*;

use crate::config::{
    first_value, read_error, read_outcome, read_outcome_at, spec_api_token, spec_plain,
    spec_record_types, spec_repeat_interval, var_name, with_loaded, Config, ConfigError, EnvModel,
    EnvState, Setting,
};
use crate::text::{split_on, split_text, string_views, lemma_split_nonempty};

verus! {

/// Whether the updates run once or repeat every so many seconds.
#[derive(PartialEq, Eq, Structural, Debug, Clone, Copy)]
pub enum RunMode {
    Once,
    Every(u64),
}

/// An interval of 0 runs once; any other repeats every that many seconds.
pub open spec fn spec_run_mode(seconds: u64) -> RunMode {
    if seconds == 0 {
        RunMode::Once
    } else {
        RunMode::Every(seconds)
    }
}

impl RunMode {
    /// The mode for a repeat interval in seconds.
    pub fn from_interval(seconds: u64) -> (m: RunMode)
        ensures
            m == spec_run_mode(seconds),
    {
        if seconds == 0 {
            RunMode::Once
        } else {
            RunMode::Every(seconds)
        }
    }

    /// Whether another round follows the one just done: never when running once;
    /// when repeating, until a shutdown is requested.
    pub fn runs_again(&self, shutdown_requested: bool) -> (r: bool)
        ensures
            r == (*self !is Once && !shutdown_requested),
    {
        match self {
            RunMode::Once => false,
            RunMode::Every(_) => !shutdown_requested,
        }
    }
}

/// Why the host and zone lists were refused.
#[derive(PartialEq, Eq, Structural, Debug, Clone, Copy)]
pub enum SettingsError {
    /// The lists differ in length.
    LengthMismatch,
    /// One of the lists is empty.
    Empty,
}

/// The text that reports a refused host and zone list.
pub open spec fn settings_message(e: SettingsError) -> Seq<char> {
    match e {
        SettingsError::LengthMismatch => "Error: hosts and zones have different lengths. These need to match"@,
        SettingsError::Empty => "Error: hosts and zones must both not be empty."@,
    }
}

impl SettingsError {
    /// The text that reports this error.
    pub fn message(&self) -> (r: String)
        ensures
            r@ == settings_message(*self),
    {
        match self {
            SettingsError::LengthMismatch => "Error: hosts and zones have different lengths. These need to match".to_owned(),
            SettingsError::Empty => "Error: hosts and zones must both not be empty.".to_owned(),
        }
    }
}

/// Whether a list of names holds `name`.
pub open spec fn lists(names: Seq<Seq<char>>, name: Seq<char>) -> bool {
    names.contains(name)
}

/// What a run works from.
pub struct Settings {
    pub api_token: String,
    /// Whether `A` records are kept up to date.
    pub ipv4: bool,
    /// Whether the IPv6 address is looked up (`AAAA` among the record types).
    pub ipv6: bool,
    /// The hosts; `hosts[i]` lives in `zones[i]`.
    pub hosts: Vec<String>,
    pub zones: Vec<String>,
    pub mode: RunMode,
}

fn lists_name(names: &Vec<String>, name: &str) -> (r: bool)
    ensures
        r == string_views(names@).contains(name@),
{
    let wanted = name.to_owned();
    let mut i: usize = 0;
    while i < names.len()
        invariant
            i <= names.len(),
            wanted@ == name@,
            forall|k: int| 0 <= k < i ==> names@[k]@ != name@,
        decreases names.len() - i,
    {
        if names[i] == wanted {
            assert(string_views(names@)[i as int] == name@);
            return true;
        }
        i = i + 1;
    }
    assert forall|k: int| 0 <= k < string_views(names@).len() implies string_views(names@)[k]
        != name@ by {
        assert(string_views(names@)[k] == names@[k]@);
    }
    false
}

impl Settings {
    /// Builds the settings from the configured texts: record types, hosts and
    /// zones are lists separated by `;`; `A` among the record types updates the
    /// IPv4 records and `AAAA` looks up the IPv6 address. Hosts and zones must
    /// pair up one to one.
    pub fn new(api_token: String, record_types: &str, hosts: &str, zones: &str, repeat_interval: u64) -> (r:
        Result<Settings, SettingsError>)
        ensures
            r matches Err(SettingsError::LengthMismatch) <==> split_on(hosts@, ';').len()
                != split_on(zones@, ';').len(),
            r matches Err(SettingsError::Empty) <==> (split_on(hosts@, ';').len() == split_on(
                zones@,
                ';',
            ).len() && (split_on(hosts@, ';').len() == 0 || split_on(zones@, ';').len() == 0)),
            r matches Ok(s) ==> {
                &&& s.api_token == api_token
                &&& s.ipv4 == lists(split_on(record_types@, ';'), "A"@)
                &&& s.ipv6 == lists(split_on(record_types@, ';'), "AAAA"@)
                &&& string_views(s.hosts@) == split_on(hosts@, ';')
                &&& string_views(s.zones@) == split_on(zones@, ';')
                &&& s.mode == spec_run_mode(repeat_interval)
            },
    {
        let types = split_text(record_types, ';');
        let ipv4 = lists_name(&types, "A");
        let ipv6 = lists_name(&types, "AAAA");
        let host_list = split_text(hosts, ';');
        let zone_list = split_text(zones, ';');
        proof {
            assert(host_list@.len() == split_on(hosts@, ';').len());
            assert(zone_list@.len() == split_on(zones@, ';').len());
        }
        if host_list.len() != zone_list.len() {
            return Err(SettingsError::LengthMismatch);
        }
        if host_list.len() == 0 || zone_list.len() == 0 {
            return Err(SettingsError::Empty);
        }
        Ok(
            Settings {
                api_token,
                ipv4,
                ipv6,
                hosts: host_list,
                zones: zone_list,
                mode: RunMode::from_interval(repeat_interval),
            },
        )
    }
}

/// The first setting that cannot be read, if any, when the settings are read
/// in the order API token, record types, repeat interval, hosts, zones: the
/// inputs on which reading them panics.
pub open spec fn first_config_error(merged: bool, env: EnvModel) -> Option<ConfigError> {
    let (m1, e1, token) = read_outcome(merged, env, Setting::ApiToken);
    let (m2, e2, types) = read_outcome(m1, e1, Setting::RecordTypes);
    let (m3, e3, secs) = read_outcome(m2, e2, Setting::RepeatInterval);
    let hosts = read_error(m3, e3, Setting::Hosts);
    let zones = read_error(m3, e3, Setting::Zones);
    if token is Some {
        token
    } else if types is Some {
        types
    } else if secs is Some {
        secs
    } else if hosts is Some {
        hosts
    } else {
        zones
    }
}

impl Settings {
    /// The first setting that cannot be read, if any; `load` requires that
    /// there is none.
    pub fn config_error(config: &Config, env: &EnvState) -> (r: Option<ConfigError>)
        ensures
            r == first_config_error(config.merged, env@),
    {
        let ghost e0 = env@;
        assert(with_loaded(e0, env.loaded) == e0);
        let (m1, l1, token) = read_outcome_at(config.merged, env.loaded, env, Setting::ApiToken);
        if token.is_some() {
            return token;
        }
        let (m2, l2, types) = read_outcome_at(m1, l1, env, Setting::RecordTypes);
        if types.is_some() {
            return types;
        }
        let (m3, l3, secs) = read_outcome_at(m2, l2, env, Setting::RepeatInterval);
        if secs.is_some() {
            return secs;
        }
        let (_, _, hosts) = read_outcome_at(m3, l3, env, Setting::Hosts);
        if hosts.is_some() {
            return hosts;
        }
        let (_, _, zones) = read_outcome_at(m3, l3, env, Setting::Zones);
        zones
    }

    /// Reads the settings in the order API token, record types, repeat
    /// interval, hosts, zones, and checks the host and zone lists.
    pub fn load(config: &mut Config, env: &mut EnvState) -> (r: Result<Settings, SettingsError>)
        requires
            first_config_error(old(config).merged, old(env)@) is None,
        ensures
            ({
                let (m1, e1, token) = spec_api_token(old(config).merged, old(env)@);
                let (m2, e2, types) = spec_record_types(m1, e1);
                let (m3, e3, secs) = spec_repeat_interval(m2, e2);
                let hosts = spec_plain(e3, Setting::Hosts);
                let zones = spec_plain(e3, Setting::Zones);
                &&& final(config).merged == m3
                &&& final(env)@ == e3
                &&& (r matches Err(SettingsError::LengthMismatch)) <==> (split_on(
                    hosts->Ok_0,
                    ';',
                ).len() != split_on(zones->Ok_0, ';').len())
                &&& !(r matches Err(SettingsError::Empty))
                &&& r matches Ok(s) ==> {
                    &&& s.api_token@ == token->Ok_0
                    &&& s.ipv4 == lists(split_on(types->Ok_0, ';'), "A"@)
                    &&& s.ipv6 == lists(split_on(types->Ok_0, ';'), "AAAA"@)
                    &&& string_views(s.hosts@) == split_on(hosts->Ok_0, ';')
                    &&& string_views(s.zones@) == split_on(zones->Ok_0, ';')
                    &&& s.mode == spec_run_mode(secs->Ok_0)
                }
            }),
    {
        let token = config.api_token(env);
        let types = config.record_types(env);
        let secs = config.repeat_interval(env);
        let hosts = Config::hosts(env);
        let zones = Config::zones(env);
        proof {
            lemma_split_nonempty(hosts@, ';');
            lemma_split_nonempty(zones@, ';');
        }
        Settings::new(token, types.as_str(), hosts.as_str(), zones.as_str(), secs)
    }
}

/// Host and zone lists that pair up are never refused as empty: a split always
/// yields at least one piece.
pub proof fn lemma_lists_never_empty(hosts: Seq<char>, zones: Seq<char>)
    ensures
        split_on(hosts, ';').len() >= 1,
        split_on(zones, ';').len() >= 1,
{
    lemma_split_nonempty(hosts, ';');
    lemma_split_nonempty(zones, ';');
}

/// A repeat interval that is set nowhere defaults to 0, which runs only once,
/// provided the `.env` file can be loaded or has been merged already.
pub proof fn lemma_unset_interval_runs_once(merged: bool, env: EnvModel, shutdown_requested: bool)
    requires
        first_value(env.vars, var_name(Setting::RepeatInterval)) is None,
        env.file is Some ==> first_value(env.file->0, var_name(Setting::RepeatInterval)) is None,
        env.file is None ==> merged,
    ensures
        spec_repeat_interval(merged, env).2 == Ok::<u64, ConfigError>(0),
        spec_run_mode(0) == RunMode::Once,
        !(spec_run_mode(0) !is Once && !shutdown_requested),
{
}

/// Reading the settings in order finds no error exactly when each read, from
/// the state the previous one left, succeeds.
pub proof fn lemma_no_config_error_iff_reads_succeed(merged: bool, env: EnvModel)
    ensures
        first_config_error(merged, env) is None <==> ({
            let (m1, e1, token) = spec_api_token(merged, env);
            let (m2, e2, types) = spec_record_types(m1, e1);
            let (m3, e3, secs) = spec_repeat_interval(m2, e2);
            &&& token is Ok
            &&& types is Ok
            &&& secs is Ok
            &&& spec_plain(e3, Setting::Hosts) is Ok
            &&& spec_plain(e3, Setting::Zones) is Ok
        }),
{
}

/// A run can start when the `.env` file can be loaded, the token is not a
/// process variable (so reading it merges the file), and each of the record
/// types, hosts and zones is set in the process or in the file.
pub proof fn lemma_settings_from_file_start(merged: bool, env: EnvModel)
    requires
        env.file is Some,
        first_value(env.vars, var_name(Setting::ApiToken)) is None,
        first_value(env.file->0, var_name(Setting::ApiToken)) is Some,
        first_value(env.vars, var_name(Setting::RecordTypes)) is Some || first_value(
            env.file->0,
            var_name(Setting::RecordTypes),
        ) is Some,
        first_value(env.vars, var_name(Setting::Hosts)) is Some || first_value(
            env.file->0,
            var_name(Setting::Hosts),
        ) is Some,
        first_value(env.vars, var_name(Setting::Zones)) is Some || first_value(
            env.file->0,
            var_name(Setting::Zones),
        ) is Some,
    ensures
        first_config_error(merged, env) is None,
{
    let e1 = spec_api_token(merged, env).1;
    assert(e1.loaded && e1.file == env.file && e1.vars == env.vars);
    let e2 = spec_record_types(spec_api_token(merged, env).0, e1).1;
    assert(e2 == e1);
    let e3 = spec_repeat_interval(spec_record_types(spec_api_token(merged, env).0, e1).0, e2).1;
    assert(e3 == e1);
}

/// A name is listed exactly when some position holds it.
pub proof fn lemma_lists_means_present(names: Seq<Seq<char>>, name: Seq<char>)
    ensures
        lists(names, name) <==> exists|k: int| 0 <= k < names.len() && names[k] == name,
{
}

/// An interval of 0 runs once and any other repeats every that many seconds.
pub proof fn lemma_run_mode_by_interval(seconds: u64)
    ensures
        spec_run_mode(seconds) == RunMode::Once <==> seconds == 0,
        seconds != 0 ==> spec_run_mode(seconds) == RunMode::Every(seconds),
{
}

} // verus!
