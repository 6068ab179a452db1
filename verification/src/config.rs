//! Reading the settings from the process environment, with a `.env` file as
//! fallback.
//!
//! The environment is modelled as the process variables, the pairs that the
//! `.env` file holds (or nothing, when it cannot be loaded), and whether that file
//! has been merged in. A merge never overrides a process variable, and the first
//! pair for a name in the file is the one that counts.
use vstd::prelude::*;

use crate::text::parse_u64;

verus! {

/// A list of name/value pairs, by their views.
pub type PairsView = Seq<(Seq<char>, Seq<char>)>;

/// The views of a list of owned name/value pairs.
pub open spec fn pair_views(v: Seq<(String, String)>) -> PairsView {
    v.map_values(|p: (String, String)| (p.0@, p.1@))
}

/// The view of an optional owned string.
pub open spec fn opt_view(o: Option<String>) -> Option<Seq<char>> {
    match o {
        Some(s) => Some(s@),
        None => None,
    }
}

/// The value of the first pair named `key`.
pub open spec fn first_value(pairs: PairsView, key: Seq<char>) -> Option<Seq<char>>
    decreases pairs.len(),
{
    if pairs.len() == 0 {
        None
    } else if pairs[0].0 == key {
        Some(pairs[0].1)
    } else {
        first_value(pairs.drop_first(), key)
    }
}

/// The environment as the settings see it.
pub struct EnvModel {
    pub vars: PairsView,
    pub file: Option<PairsView>,
    pub loaded: bool,
}

/// What reading the variable `key` gives: the process variable when it is set,
/// else, once the `.env` file has been merged, the file's value.
pub open spec fn env_var(env: EnvModel, key: Seq<char>) -> Option<Seq<char>> {
    match first_value(env.vars, key) {
        Some(v) => Some(v),
        None => if env.loaded && env.file is Some {
            first_value(env.file->0, key)
        } else {
            None
        },
    }
}

/// The process environment together with the contents of the `.env` file.
pub struct EnvState {
    /// The process variables.
    pub vars: Vec<(String, String)>,
    /// The pairs of the `.env` file, in file order, or `None` when it cannot be loaded.
    pub dotenv_file: Option<Vec<(String, String)>>,
    /// Whether the `.env` file has been merged into the environment.
    pub loaded: bool,
}

impl View for EnvState {
    type V = EnvModel;

    open spec fn view(&self) -> EnvModel {
        EnvModel {
            vars: pair_views(self.vars@),
            file: match self.dotenv_file {
                Some(f) => Some(pair_views(f@)),
                None => None,
            },
            loaded: self.loaded,
        }
    }
}

fn first_value_of(pairs: &Vec<(String, String)>, key: &String) -> (r: Option<String>)
    ensures
        opt_view(r) == first_value(pair_views(pairs@), key@),
{
    let ghost pv = pair_views(pairs@);
    let mut i: usize = 0;
    assert(pv.skip(0) =~= pv);
    while i < pairs.len()
        invariant
            i <= pairs.len(),
            pv == pair_views(pairs@),
            first_value(pv, key@) == first_value(pv.skip(i as int), key@),
        decreases pairs.len() - i,
    {
        assert(pv.skip(i as int)[0] == pv[i as int]);
        if pairs[i].0 == *key {
            return Some(pairs[i].1.clone());
        }
        assert(pv.skip(i as int).drop_first() =~= pv.skip(i + 1));
        i = i + 1;
    }
    assert(pv.skip(i as int).len() == 0);
    None
}

impl EnvState {
    /// An environment whose `.env` file has not been merged yet.
    pub fn new(vars: Vec<(String, String)>, dotenv_file: Option<Vec<(String, String)>>) -> (e:
        EnvState)
        ensures
            e@.vars == pair_views(vars@),
            e@.file == (match dotenv_file {
                Some(f) => Some(pair_views(f@)),
                None => None,
            }),
            !e@.loaded,
    {
        EnvState { vars, dotenv_file, loaded: false }
    }

    /// Reads the variable `key`.
    pub fn var(&self, key: &str) -> (r: Option<String>)
        ensures
            opt_view(r) == env_var(self@, key@),
    {
        let name = key.to_owned();
        match first_value_of(&self.vars, &name) {
            Some(v) => Some(v),
            None => {
                if self.loaded {
                    match &self.dotenv_file {
                        Some(f) => first_value_of(f, &name),
                        None => None,
                    }
                } else {
                    None
                }
            },
        }
    }

    /// Merges the `.env` file into the environment; false when it cannot be loaded.
    pub fn load_dotenv(&mut self) -> (ok: bool)
        ensures
            ok == (old(self)@.file is Some),
            final(self)@ == (EnvModel { loaded: old(self)@.loaded || ok, ..old(self)@ }),
    {
        if self.dotenv_file.is_some() {
            self.loaded = true;
            true
        } else {
            false
        }
    }
}

/// The settings that the environment provides.
#[derive(PartialEq, Eq, Structural, Debug, Clone, Copy)]
pub enum Setting {
    ApiToken,
    RecordTypes,
    RepeatInterval,
    Hosts,
    Zones,
    Ipv4Endpoint,
    Ipv6Endpoint,
}

/// The name of the environment variable that holds a setting.
pub open spec fn var_name(s: Setting) -> Seq<char> {
    match s {
        Setting::ApiToken => "CLOUDFLAREDDNS_APITOKEN"@,
        Setting::RecordTypes => "CLOUDFLAREDDNS_RECORDTYPES"@,
        Setting::RepeatInterval => "CLOUDFLAREDDNS_REPEAT_INTERVAL"@,
        Setting::Hosts => "CLOUDFLAREDDNS_HOSTS"@,
        Setting::Zones => "CLOUDFLAREDDNS_ZONES"@,
        Setting::Ipv4Endpoint => "CLOUDFLAREDDNS_IPV4_API_ENDPOINT"@,
        Setting::Ipv6Endpoint => "CLOUDFLAREDDNS_IPV6_API_ENDPOINT"@,
    }
}

impl Setting {
    /// The name of the environment variable that holds this setting.
    pub fn var_name(&self) -> (r: &'static str)
        ensures
            r@ == var_name(*self),
    {
        match self {
            Setting::ApiToken => "CLOUDFLAREDDNS_APITOKEN",
            Setting::RecordTypes => "CLOUDFLAREDDNS_RECORDTYPES",
            Setting::RepeatInterval => "CLOUDFLAREDDNS_REPEAT_INTERVAL",
            Setting::Hosts => "CLOUDFLAREDDNS_HOSTS",
            Setting::Zones => "CLOUDFLAREDDNS_ZONES",
            Setting::Ipv4Endpoint => "CLOUDFLAREDDNS_IPV4_API_ENDPOINT",
            Setting::Ipv6Endpoint => "CLOUDFLAREDDNS_IPV6_API_ENDPOINT",
        }
    }
}

/// Why a required setting could not be read.
#[derive(PartialEq, Eq, Structural, Debug, Clone, Copy)]
pub enum ConfigError {
    /// The variable was missing and the `.env` file could not be loaded.
    DotenvUnavailable,
    /// The variable is set neither in the environment nor in the `.env` file.
    NotSet(Setting),
}

/// The text that reports a configuration error.
pub open spec fn error_message(e: ConfigError) -> Seq<char> {
    match e {
        ConfigError::DotenvUnavailable => "Unable to load environment variable from .env file"@,
        ConfigError::NotSet(s) => var_name(s) + " environment variable not set"@,
    }
}

impl ConfigError {
    /// The text that reports this error.
    pub fn message(&self) -> (r: String)
        ensures
            r@ == error_message(*self),
    {
        match self {
            ConfigError::DotenvUnavailable => "Unable to load environment variable from .env file".to_owned(),
            ConfigError::NotSet(s) => {
                let mut m = s.var_name().to_owned();
                m.append(" environment variable not set");
                m
            },
        }
    }
}

/// The merge flag and environment after a read missed: the `.env` file is merged
/// when `load` holds; `None` when it had to be merged and cannot be loaded.
pub open spec fn after_miss(merged: bool, env: EnvModel, load: bool) -> Option<(bool, EnvModel)> {
    if !load {
        Some((merged, env))
    } else if env.file is Some {
        Some((true, EnvModel { loaded: true, ..env }))
    } else {
        None
    }
}

/// Reading a required setting: when the variable is missing, the `.env` file is
/// merged if `load` holds, and the variable is read again.
pub open spec fn read_required(merged: bool, env: EnvModel, setting: Setting, load: bool) -> (
    bool,
    EnvModel,
    Result<Seq<char>, ConfigError>,
) {
    match env_var(env, var_name(setting)) {
        Some(v) => (merged, env, Ok(v)),
        None => match after_miss(merged, env, load) {
            None => (merged, env, Err(ConfigError::DotenvUnavailable)),
            Some((m2, e2)) => (
                m2,
                e2,
                match env_var(e2, var_name(setting)) {
                    Some(v) => Ok(v),
                    None => Err(ConfigError::NotSet(setting)),
                },
            ),
        },
    }
}

/// The API token: on a miss the `.env` file is merged, whether or not it was before.
pub open spec fn spec_api_token(merged: bool, env: EnvModel) -> (
    bool,
    EnvModel,
    Result<Seq<char>, ConfigError>,
) {
    read_required(merged, env, Setting::ApiToken, true)
}

/// The record types: on a miss the `.env` file is merged unless it already was.
pub open spec fn spec_record_types(merged: bool, env: EnvModel) -> (
    bool,
    EnvModel,
    Result<Seq<char>, ConfigError>,
) {
    read_required(merged, env, Setting::RecordTypes, !merged)
}

/// The number of seconds that a text gives: the number it denotes, else 0.
pub open spec fn interval_value(text: Seq<char>) -> u64 {
    match parse_u64(text) {
        Some(n) => n,
        None => 0,
    }
}

/// The repeat interval: on a miss the `.env` file is merged unless it already
/// was; a variable set nowhere, or a text that is no number, gives 0.
pub open spec fn spec_repeat_interval(merged: bool, env: EnvModel) -> (
    bool,
    EnvModel,
    Result<u64, ConfigError>,
) {
    let key = var_name(Setting::RepeatInterval);
    match env_var(env, key) {
        Some(v) => (merged, env, Ok(interval_value(v))),
        None => match after_miss(merged, env, !merged) {
            None => (merged, env, Err(ConfigError::DotenvUnavailable)),
            Some((m2, e2)) => (
                m2,
                e2,
                Ok(
                    match env_var(e2, key) {
                        Some(v) => interval_value(v),
                        None => 0,
                    },
                ),
            ),
        },
    }
}

/// A setting read once, with no fallback to the `.env` file.
pub open spec fn spec_plain(env: EnvModel, setting: Setting) -> Result<Seq<char>, ConfigError> {
    match env_var(env, var_name(setting)) {
        Some(v) => Ok(v),
        None => Err(ConfigError::NotSet(setting)),
    }
}

/// The environment with the merge flag set to `loaded`.
pub open spec fn with_loaded(env: EnvModel, loaded: bool) -> EnvModel {
    EnvModel { loaded, ..env }
}

/// The error of a read, if it fails.
pub open spec fn error_of<T>(r: Result<T, ConfigError>) -> Option<ConfigError> {
    match r {
        Ok(_) => None,
        Err(e) => Some(e),
    }
}

/// The merge flag, the environment and the error, if any, after reading a
/// setting as its `Config` method does. Reading an endpoint never fails.
pub open spec fn read_outcome(merged: bool, env: EnvModel, setting: Setting) -> (
    bool,
    EnvModel,
    Option<ConfigError>,
) {
    match setting {
        Setting::ApiToken => {
            let (m, e, r) = spec_api_token(merged, env);
            (m, e, error_of(r))
        },
        Setting::RecordTypes => {
            let (m, e, r) = spec_record_types(merged, env);
            (m, e, error_of(r))
        },
        Setting::RepeatInterval => {
            let (m, e, r) = spec_repeat_interval(merged, env);
            (m, e, error_of(r))
        },
        Setting::Hosts => (merged, env, error_of(spec_plain(env, Setting::Hosts))),
        Setting::Zones => (merged, env, error_of(spec_plain(env, Setting::Zones))),
        _ => (merged, env, None),
    }
}

/// Why reading a setting fails, if it does: the inputs on which the read panics.
pub open spec fn read_error(merged: bool, env: EnvModel, setting: Setting) -> Option<ConfigError> {
    read_outcome(merged, env, setting).2
}

impl EnvState {
    /// Reads `key` as it would read with the merge flag set to `loaded`.
    pub fn var_when(&self, key: &str, loaded: bool) -> (r: Option<String>)
        ensures
            opt_view(r) == env_var(with_loaded(self@, loaded), key@),
    {
        let name = key.to_owned();
        match first_value_of(&self.vars, &name) {
            Some(v) => Some(v),
            None => {
                if loaded {
                    match &self.dotenv_file {
                        Some(f) => first_value_of(f, &name),
                        None => None,
                    }
                } else {
                    None
                }
            },
        }
    }
}

/// Works out `read_outcome` from a merge flag and a merged state of the
/// environment, without changing the environment.
pub fn read_outcome_at(merged: bool, loaded: bool, env: &EnvState, setting: Setting) -> (r: (
    bool,
    bool,
    Option<ConfigError>,
))
    ensures
        (r.0, with_loaded(env@, r.1), r.2) == read_outcome(merged, with_loaded(env@, loaded), setting),
{
    let ghost e0 = with_loaded(env@, loaded);
    match setting {
        Setting::Hosts | Setting::Zones => {
            return match env.var_when(setting.var_name(), loaded) {
                Some(_) => (merged, loaded, None),
                None => (merged, loaded, Some(ConfigError::NotSet(setting))),
            };
        },
        Setting::Ipv4Endpoint | Setting::Ipv6Endpoint => {
            return (merged, loaded, None);
        },
        _ => {},
    }
    let key = setting.var_name();
    if env.var_when(key, loaded).is_some() {
        return (merged, loaded, None);
    }
    let load = match setting {
        Setting::ApiToken => true,
        _ => !merged,
    };
    let mut m = merged;
    let mut l = loaded;
    if load {
        if env.dotenv_file.is_none() {
            return (merged, loaded, Some(ConfigError::DotenvUnavailable));
        }
        m = true;
        l = true;
        assert(with_loaded(env@, l) == (EnvModel { loaded: true, ..e0 }));
    }
    match setting {
        Setting::RepeatInterval => (m, l, None),
        _ => match env.var_when(key, l) {
            Some(_) => (m, l, None),
            None => (m, l, Some(ConfigError::NotSet(setting))),
        },
    }
}

/// Tracks whether the `.env` file has already been merged into the environment.
pub struct Config {
    pub merged: bool,
}

impl Config {
    /// A configuration that has not merged the `.env` file yet.
    pub fn new() -> (c: Config)
        ensures
            !c.merged,
    {
        Config { merged: false }
    }

    /// Why reading `setting` now would fail, if it would; the reads require that
    /// it would not.
    pub fn read_error(&self, env: &EnvState, setting: Setting) -> (r: Option<ConfigError>)
        ensures
            r == read_error(self.merged, env@, setting),
    {
        let out = read_outcome_at(self.merged, env.loaded, env, setting);
        assert(with_loaded(env@, env.loaded) == env@);
        out.2
    }

    fn read_required(&mut self, env: &mut EnvState, setting: Setting, load: bool) -> (r: String)
        requires
            read_required(old(self).merged, old(env)@, setting, load).2 is Ok,
        ensures
            (final(self).merged, final(env)@, Ok::<Seq<char>, ConfigError>(r@)) == read_required(
                old(self).merged,
                old(env)@,
                setting,
                load,
            ),
    {
        let key = setting.var_name();
        match env.var(key) {
            Some(v) => v,
            None => {
                if load {
                    let loaded = env.load_dotenv();
                    assert(loaded);
                    self.merged = true;
                }
                match env.var(key) {
                    Some(v) => v,
                    None => {
                        assert(false);
                        String::new()
                    },
                }
            },
        }
    }

    /// The Cloudflare API token (`CLOUDFLAREDDNS_APITOKEN`). When it is missing
    /// the `.env` file is merged, and the token read again.
    pub fn api_token(&mut self, env: &mut EnvState) -> (r: String)
        requires
            read_error(old(self).merged, old(env)@, Setting::ApiToken) is None,
        ensures
            (final(self).merged, final(env)@, Ok::<Seq<char>, ConfigError>(r@)) == spec_api_token(
                old(self).merged,
                old(env)@,
            ),
    {
        self.read_required(env, Setting::ApiToken, true)
    }

    /// The record types to keep up to date, separated by `;`
    /// (`CLOUDFLAREDDNS_RECORDTYPES`). When they are missing the `.env` file is
    /// merged unless it already was, and they are read again.
    pub fn record_types(&mut self, env: &mut EnvState) -> (r: String)
        requires
            read_error(old(self).merged, old(env)@, Setting::RecordTypes) is None,
        ensures
            (final(self).merged, final(env)@, Ok::<Seq<char>, ConfigError>(r@))
                == spec_record_types(old(self).merged, old(env)@),
    {
        let load = !self.merged;
        self.read_required(env, Setting::RecordTypes, load)
    }

    /// The number of seconds between updates (`CLOUDFLAREDDNS_REPEAT_INTERVAL`).
    /// When it is missing the `.env` file is merged unless it already was; a
    /// value set nowhere, or a text that is no number, gives 0, which runs only
    /// once.
    pub fn repeat_interval(&mut self, env: &mut EnvState) -> (r: u64)
        requires
            read_error(old(self).merged, old(env)@, Setting::RepeatInterval) is None,
        ensures
            (final(self).merged, final(env)@, Ok::<u64, ConfigError>(r)) == spec_repeat_interval(
                old(self).merged,
                old(env)@,
            ),
    {
        let key = Setting::RepeatInterval.var_name();
        let text = match env.var(key) {
            Some(v) => v,
            None => {
                if !self.merged {
                    let loaded = env.load_dotenv();
                    assert(loaded);
                    self.merged = true;
                }
                match env.var(key) {
                    Some(v) => v,
                    None => {
                        return 0;
                    },
                }
            },
        };
        match crate::text::parse_unsigned(text.as_str()) {
            Some(n) => n,
            None => 0,
        }
    }

    /// The hosts, separated by `;` (`CLOUDFLAREDDNS_HOSTS`); read once, without
    /// merging the `.env` file.
    pub fn hosts(env: &EnvState) -> (r: String)
        requires
            spec_plain(env@, Setting::Hosts) is Ok,
        ensures
            Ok::<Seq<char>, ConfigError>(r@) == spec_plain(env@, Setting::Hosts),
    {
        match env.var(Setting::Hosts.var_name()) {
            Some(v) => v,
            None => String::new(),
        }
    }

    /// The zones, separated by `;`, one for each host (`CLOUDFLAREDDNS_ZONES`);
    /// read once, without merging the `.env` file.
    pub fn zones(env: &EnvState) -> (r: String)
        requires
            spec_plain(env@, Setting::Zones) is Ok,
        ensures
            Ok::<Seq<char>, ConfigError>(r@) == spec_plain(env@, Setting::Zones),
    {
        match env.var(Setting::Zones.var_name()) {
            Some(v) => v,
            None => String::new(),
        }
    }
}

/// A merged `.env` file stays merged: no read clears the flag.
pub proof fn lemma_merge_is_kept(merged: bool, env: EnvModel)
    ensures
        merged ==> spec_api_token(merged, env).0,
        merged ==> spec_record_types(merged, env).0,
        merged ==> spec_repeat_interval(merged, env).0,
{
}

/// Once the `.env` file has been merged, reading the record types or the repeat
/// interval does not load it again: the environment is left as it was.
pub proof fn lemma_dotenv_merged_once(env: EnvModel)
    ensures
        spec_record_types(true, env).1 == env,
        spec_repeat_interval(true, env).1 == env,
{
}

/// A process variable takes precedence over the `.env` file, merged or not.
pub proof fn lemma_process_variable_wins(env: EnvModel, key: Seq<char>)
    requires
        first_value(env.vars, key) is Some,
    ensures
        env_var(env, key) == first_value(env.vars, key),
        env_var(EnvModel { loaded: true, ..env }, key) == first_value(env.vars, key),
{
}

/// A setting that the environment has is read as the environment has it,
/// without merging the `.env` file again or touching the merge flag.
pub proof fn lemma_reads_take_what_is_set(merged: bool, env: EnvModel)
    ensures
        env_var(env, var_name(Setting::ApiToken)) is Some ==> spec_api_token(merged, env) == (
            merged,
            env,
            Ok::<Seq<char>, ConfigError>(env_var(env, var_name(Setting::ApiToken))->0),
        ),
        env_var(env, var_name(Setting::RecordTypes)) is Some ==> spec_record_types(merged, env)
            == (
            merged,
            env,
            Ok::<Seq<char>, ConfigError>(env_var(env, var_name(Setting::RecordTypes))->0),
        ),
        env_var(env, var_name(Setting::RepeatInterval)) is Some ==> spec_repeat_interval(
            merged,
            env,
        ) == (
            merged,
            env,
            Ok::<u64, ConfigError>(
                interval_value(env_var(env, var_name(Setting::RepeatInterval))->0),
            ),
        ),
        env_var(env, var_name(Setting::Hosts)) is Some ==> spec_plain(env, Setting::Hosts)
            == Ok::<Seq<char>, ConfigError>(env_var(env, var_name(Setting::Hosts))->0),
        env_var(env, var_name(Setting::Zones)) is Some ==> spec_plain(env, Setting::Zones)
            == Ok::<Seq<char>, ConfigError>(env_var(env, var_name(Setting::Zones))->0),
{
}

/// A token that only the `.env` file holds is read from it: the file is merged
/// (unless it already was) and the token is its first value for the name.
pub proof fn lemma_token_from_file(merged: bool, env: EnvModel)
    requires
        first_value(env.vars, var_name(Setting::ApiToken)) is None,
        env.file is Some,
        first_value(env.file->0, var_name(Setting::ApiToken)) is Some,
    ensures
        spec_api_token(merged, env) == (
            merged || !env.loaded,
            EnvModel { loaded: true, ..env },
            Ok::<Seq<char>, ConfigError>(first_value(env.file->0, var_name(Setting::ApiToken))->0),
        ),
{
}

/// Record types that only the `.env` file holds are read from it, whether this
/// read merges the file or an earlier one did.
pub proof fn lemma_record_types_from_file(merged: bool, env: EnvModel)
    requires
        first_value(env.vars, var_name(Setting::RecordTypes)) is None,
        env.file is Some,
        first_value(env.file->0, var_name(Setting::RecordTypes)) is Some,
        env.loaded || !merged,
    ensures
        spec_record_types(merged, env).2 == Ok::<Seq<char>, ConfigError>(
            first_value(env.file->0, var_name(Setting::RecordTypes))->0,
        ),
        spec_record_types(merged, env).0 == (merged || !env.loaded),
        spec_record_types(merged, env).1 == (EnvModel { loaded: true, ..env }),
{
}

/// A repeat interval that only the `.env` file holds is read from it, whether
/// this read merges the file or an earlier one did.
pub proof fn lemma_interval_from_file(merged: bool, env: EnvModel)
    requires
        first_value(env.vars, var_name(Setting::RepeatInterval)) is None,
        env.file is Some,
        first_value(env.file->0, var_name(Setting::RepeatInterval)) is Some,
        env.loaded || !merged,
    ensures
        spec_repeat_interval(merged, env).2 == Ok::<u64, ConfigError>(
            interval_value(first_value(env.file->0, var_name(Setting::RepeatInterval))->0),
        ),
        spec_repeat_interval(merged, env).0 == (merged || !env.loaded),
        spec_repeat_interval(merged, env).1 == (EnvModel { loaded: true, ..env }),
{
}

/// A read fails only on the inputs where the variable is missing and the
/// `.env` file is needed but cannot be loaded, or where it is set nowhere.
pub proof fn lemma_read_errors(merged: bool, env: EnvModel)
    ensures
        spec_api_token(merged, env).2 == Err::<Seq<char>, ConfigError>(
            ConfigError::DotenvUnavailable,
        ) <==> (env_var(env, var_name(Setting::ApiToken)) is None && env.file is None),
        spec_api_token(merged, env).2 == Err::<Seq<char>, ConfigError>(
            ConfigError::NotSet(Setting::ApiToken),
        ) <==> (env.file is Some && first_value(env.vars, var_name(Setting::ApiToken)) is None
            && first_value(env.file->0, var_name(Setting::ApiToken)) is None),
        spec_repeat_interval(merged, env).2 is Err <==> (env_var(
            env,
            var_name(Setting::RepeatInterval),
        ) is None && !merged && env.file is None),
{
}

/// The value for a name is that of the first pair with the name, and there is
/// none exactly when no pair has it.
pub proof fn lemma_first_value_is_first_match(pairs: PairsView, key: Seq<char>)
    ensures
        first_value(pairs, key) is None <==> forall|j: int| 0 <= j < pairs.len() ==> (#[trigger] pairs[j]).0 != key,
        first_value(pairs, key) is Some ==> exists|i: int|
            0 <= i < pairs.len() && (#[trigger] pairs[i]).0 == key && pairs[i].1 == first_value(
                pairs,
                key,
            )->0 && forall|j: int| 0 <= j < i ==> (#[trigger] pairs[j]).0 != key,
    decreases pairs.len(),
{
    if pairs.len() > 0 {
        let rest = pairs.drop_first();
        lemma_first_value_is_first_match(rest, key);
        assert forall|j: int| 0 <= j < rest.len() implies rest[j] == pairs[j + 1] by {}
        if pairs[0].0 != key {
            if first_value(rest, key) is Some {
                let i = choose|i: int|
                    0 <= i < rest.len() && (#[trigger] rest[i]).0 == key && rest[i].1 == first_value(
                        rest,
                        key,
                    )->0 && forall|j: int| 0 <= j < i ==> (#[trigger] rest[j]).0 != key;
                assert(pairs[i + 1] == rest[i]);
                assert forall|j: int| 0 <= j < i + 1 implies (#[trigger] pairs[j]).0 != key by {
                    if j > 0 {
                        assert(pairs[j] == rest[j - 1]);
                    }
                }
            } else {
                assert forall|j: int| 0 <= j < pairs.len() implies (#[trigger] pairs[j]).0 != key by {
                    if j > 0 {
                        assert(pairs[j] == rest[j - 1]);
                    }
                }
            }
        }
    }
}

/// The `.env` file is seen only once it has been merged: before, a read gives
/// the process variable or nothing; after, a name missing from the process
/// gives the file's value.
pub proof fn lemma_file_seen_only_when_merged(env: EnvModel, key: Seq<char>)
    ensures
        !env.loaded ==> env_var(env, key) == first_value(env.vars, key),
        (env.loaded && env.file is Some && first_value(env.vars, key) is None) ==> env_var(env, key)
            == first_value(env.file->0, key),
        env.file is None ==> env_var(env, key) == first_value(env.vars, key),
{
}

/// Reading the record types, hosts or zones fails only when the variable is
/// missing and cannot be had: for record types, when the `.env` file is already
/// merged, cannot be loaded, or lacks it; for hosts and zones, whenever the
/// environment lacks it.
pub proof fn lemma_other_read_errors(merged: bool, env: EnvModel)
    ensures
        spec_record_types(merged, env).2 is Err <==> (env_var(env, var_name(Setting::RecordTypes))
            is None && (merged || env.file is None || first_value(
            env.file->0,
            var_name(Setting::RecordTypes),
        ) is None)),
        spec_plain(env, Setting::Hosts) is Err <==> env_var(env, var_name(Setting::Hosts)) is None,
        spec_plain(env, Setting::Zones) is Err <==> env_var(env, var_name(Setting::Zones)) is None,
{
}

} // verus!
