//! The detection and ban parameters, and the store that publishes them.

use vstd::prelude::*;
use vstd::string::StringExecFns;

verus! {

/// One complete set of detection and ban parameters.
#[derive(Debug, Clone, PartialEq, Eq)]
pub struct SecurityConfig {
    pub sensitive_files: Vec<String>,
    pub cms_attacks: Vec<String>,
    pub log_path: String,
    pub max_retries: u32,
    pub window_seconds: u64,
    pub ban_time_seconds: usize,
    pub whitelist: Vec<String>,
    pub bad_user_agents: Vec<String>,
    pub instant_ban: Vec<String>,
}

/// What a `SecurityConfig` holds, as plain sequences and numbers.
pub ghost struct ConfigModel {
    pub sensitive_files: Seq<Seq<char>>,
    pub cms_attacks: Seq<Seq<char>>,
    pub log_path: Seq<char>,
    pub max_retries: u32,
    pub window_seconds: u64,
    pub ban_time_seconds: usize,
    pub whitelist: Seq<Seq<char>>,
    pub bad_user_agents: Seq<Seq<char>>,
    pub instant_ban: Seq<Seq<char>>,
}

/// The texts of a list of strings, in order.
pub open spec fn texts(v: Seq<String>) -> Seq<Seq<char>> {
    Seq::new(v.len(), |i: int| v[i]@)
}

impl View for SecurityConfig {
    type V = ConfigModel;

    open spec fn view(&self) -> ConfigModel {
        ConfigModel {
            sensitive_files: texts(self.sensitive_files@),
            cms_attacks: texts(self.cms_attacks@),
            log_path: self.log_path@,
            max_retries: self.max_retries,
            window_seconds: self.window_seconds,
            ban_time_seconds: self.ban_time_seconds,
            whitelist: texts(self.whitelist@),
            bad_user_agents: texts(self.bad_user_agents@),
            instant_ban: texts(self.instant_ban@),
        }
    }
}

/// The parameters in force before any configuration has been loaded: no
/// signatures, no whitelist, three strikes within a minute, a ban of one day.
pub open spec fn default_model() -> ConfigModel {
    ConfigModel {
        sensitive_files: Seq::empty(),
        cms_attacks: Seq::empty(),
        log_path: "/var/log/nginx/access.log"@,
        max_retries: 3,
        window_seconds: 60,
        ban_time_seconds: 86400,
        whitelist: Seq::empty(),
        bad_user_agents: Seq::empty(),
        instant_ban: Seq::empty(),
    }
}

/// Where the access log is looked for when the configuration names no place.
pub fn default_log_path() -> (path: String)
    ensures
        path@ == "/var/log/nginx/access.log"@,
{
    String::from_str("/var/log/nginx/access.log")
}

/// How many suspicious events within one window lead to a ban, by default.
pub fn default_max_retries() -> (n: u32)
    ensures
        n == 3,
{
    3
}

/// The length of the counting window in seconds, by default.
pub fn default_window_seconds() -> (n: u64)
    ensures
        n == 60,
{
    60
}

/// How long a ban lasts in seconds, by default: one day.
pub fn default_ban_time_seconds() -> (n: usize)
    ensures
        n == 86400,
{
    86400
}

impl Default for SecurityConfig {
    fn default() -> (config: Self)
        ensures
            config@ == default_model(),
    {
        let config = SecurityConfig {
            sensitive_files: Vec::new(),
            cms_attacks: Vec::new(),
            log_path: default_log_path(),
            max_retries: default_max_retries(),
            window_seconds: default_window_seconds(),
            ban_time_seconds: default_ban_time_seconds(),
            whitelist: Vec::new(),
            bad_user_agents: Vec::new(),
            instant_ban: Vec::new(),
        };
        proof {
            assert(texts(config.sensitive_files@) =~= Seq::empty());
            assert(texts(config.cms_attacks@) =~= Seq::empty());
            assert(texts(config.whitelist@) =~= Seq::empty());
            assert(texts(config.bad_user_agents@) =~= Seq::empty());
            assert(texts(config.instant_ban@) =~= Seq::empty());
        }
        config
    }
}

/// Why a configuration source gave no snapshot.
#[derive(Debug, Clone, Copy, PartialEq, Eq, Structural)]
pub enum ConfigError {
    /// The source could not be read.
    Unreadable,
    /// The source was read but is not a valid configuration document.
    Invalid,
}

/// Holds the one current snapshot. A reload puts a whole snapshot in its
/// place or changes nothing.
pub struct ConfigStore {
    snapshot: SecurityConfig,
}

impl View for ConfigStore {
    type V = ConfigModel;

    closed spec fn view(&self) -> ConfigModel {
        self.snapshot@
    }
}

impl ConfigStore {
    /// A store that holds the built-in defaults.
    pub fn new() -> (store: Self)
        ensures
            store@ == default_model(),
    {
        ConfigStore { snapshot: SecurityConfig::default() }
    }

    /// The latest published snapshot.
    pub fn current(&self) -> (config: &SecurityConfig)
        ensures
            config@ == self@,
    {
        &self.snapshot
    }

    /// Publishes `loaded` if it is a snapshot; on a load error the prior
    /// snapshot stays in force and the error is passed on.
    pub fn reload(&mut self, loaded: Result<SecurityConfig, ConfigError>) -> (outcome: Result<
        (),
        ConfigError,
    >)
        ensures
            match loaded {
                Ok(config) => outcome is Ok && final(self)@ == config@,
                Err(e) => outcome is Err && outcome->Err_0 == e && final(self)@ == old(self)@,
            },
    {
        match loaded {
            Ok(config) => {
                self.snapshot = config;
                Ok(())
            },
            Err(e) => Err(e),
        }
    }
}

/// Whether a change reported for the configuration source calls for a
/// reload: a modification does, and so does a creation, which is how an
/// atomic replace of the file shows.
pub fn reload_wanted(is_modify: bool, is_create: bool) -> (wanted: bool)
    ensures
        wanted == (is_modify || is_create),
{
    is_modify || is_create
}

} // verus!
