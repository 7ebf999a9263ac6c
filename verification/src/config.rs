//! The configuration cache: typed values parsed once per key from raw
//! environment strings, memoized for the life of the process.
//!
//! A raw value is classified by trial: a boolean literal first, then the two
//! recognized list-typed keys, then the recognized duration-typed key, and
//! any other value is kept as an opaque string.

use vstd::prelude::*;
use crate::errors::AppError;
use crate::strmap::StrMap;
use crate::strutil::{
    bool_lit_value, clone_string_vec, parse_bool_str, parse_u64_str, parses_as_u64,
    split_and_trim, split_commas, str_eq, str_views, trim_spec, u64_value,
};

verus! {

/// A parsed configuration value.
#[derive(Debug)]
pub enum ConfigValue {
    /// An ordered list of strings, from a comma-separated raw value.
    List(Vec<String>),
    /// An opaque string.
    Text(String),
    /// A boolean.
    Flag(bool),
    /// A duration in milliseconds.
    Millis(u64),
}

/// The mathematical shape of a configuration value.
pub enum ConfigModel {
    List(Seq<Seq<char>>),
    Text(Seq<char>),
    Flag(bool),
    Millis(u64),
}

impl View for ConfigValue {
    type V = ConfigModel;

    open spec fn view(&self) -> ConfigModel {
        match self {
            ConfigValue::List(v) => ConfigModel::List(str_views(v@)),
            ConfigValue::Text(s) => ConfigModel::Text(s@),
            ConfigValue::Flag(b) => ConfigModel::Flag(*b),
            ConfigValue::Millis(d) => ConfigModel::Millis(*d),
        }
    }
}

impl Clone for ConfigValue {
    /// A clone denotes the same model.
    fn clone(&self) -> (r: Self)
        ensures
            r@ == self@,
    {
        match self {
            ConfigValue::List(v) => {
                let copy = clone_string_vec(v);
                ConfigValue::List(copy)
            },
            ConfigValue::Text(s) => ConfigValue::Text(s.clone()),
            ConfigValue::Flag(b) => ConfigValue::Flag(*b),
            ConfigValue::Millis(d) => ConfigValue::Millis(*d),
        }
    }
}

impl ConfigValue {
    /// The boolean a flag value holds; any other shape is a mismatch.
    pub fn as_flag(&self) -> (r: Result<bool, ()>)
        ensures
            r == match self@ {
                ConfigModel::Flag(b) => Ok(b),
                _ => Err::<bool, ()>(()),
            },
    {
        match self {
            ConfigValue::Flag(b) => Ok(*b),
            _ => Err(()),
        }
    }

    /// The string a text value holds; any other shape is a mismatch.
    pub fn as_text(self) -> (r: Result<String, ()>)
        ensures
            self@ is Text ==> r is Ok && r->Ok_0@ == self@->Text_0,
            !(self@ is Text) ==> r is Err,
    {
        match self {
            ConfigValue::Text(s) => Ok(s),
            _ => Err(()),
        }
    }

    /// The strings a list value holds; any other shape is a mismatch.
    pub fn as_list(self) -> (r: Result<Vec<String>, ()>)
        ensures
            self@ is List ==> r is Ok && str_views(r->Ok_0@) == self@->List_0,
            !(self@ is List) ==> r is Err,
    {
        match self {
            ConfigValue::List(v) => Ok(v),
            _ => Err(()),
        }
    }

    /// The milliseconds a duration value holds; any other shape is a mismatch.
    pub fn as_millis(&self) -> (r: Result<u64, ()>)
        ensures
            r == match self@ {
                ConfigModel::Millis(d) => Ok(d),
                _ => Err::<u64, ()>(()),
            },
    {
        match self {
            ConfigValue::Millis(d) => Ok(*d),
            _ => Err(()),
        }
    }
}

/// The keys whose raw value is a comma-separated list.
pub open spec fn list_key(key: Seq<char>) -> bool {
    key == "ignored_players"@ || key == "rows"@
}

/// The key whose raw value is a duration in milliseconds.
pub open spec fn duration_key(key: Seq<char>) -> bool {
    key == "update_interval"@
}

/// The model of a successfully classified raw value.
pub open spec fn parse_model(key: Seq<char>, raw: Seq<char>) -> ConfigModel {
    match bool_lit_value(raw) {
        Some(b) => ConfigModel::Flag(b),
        None => if list_key(key) {
            ConfigModel::List(split_commas(raw).map_values(|p: Seq<char>| trim_spec(p)))
        } else if duration_key(key) {
            ConfigModel::Millis(u64_value(raw) as u64)
        } else {
            ConfigModel::Text(raw)
        },
    }
}

/// When classification fails: a duration-typed key whose raw value is
/// neither a boolean literal nor a non-negative integer that fits.
pub open spec fn parse_fails(key: Seq<char>, raw: Seq<char>) -> bool {
    &&& bool_lit_value(raw) is None
    &&& !list_key(key)
    &&& duration_key(key)
    &&& !parses_as_u64(raw)
}

/// Classifies a raw value by trial, as the cache does on a first access.
pub fn parse_value(key: &str, raw: &str) -> (r: Result<ConfigValue, AppError>)
    ensures
        r is Ok <==> !parse_fails(key@, raw@),
        r is Ok ==> r->Ok_0@ == parse_model(key@, raw@),
        r is Err ==> r == Err::<ConfigValue, AppError>(AppError::ParseInt),
{
    if let Some(b) = parse_bool_str(raw) {
        Ok(ConfigValue::Flag(b))
    } else if str_eq(key, "ignored_players") || str_eq(key, "rows") {
        Ok(ConfigValue::List(split_and_trim(raw)))
    } else if str_eq(key, "update_interval") {
        match parse_u64_str(raw) {
            Some(n) => Ok(ConfigValue::Millis(n)),
            None => Err(AppError::ParseInt),
        }
    } else {
        Ok(ConfigValue::Text(String::from_str(raw)))
    }
}

/// The view of the optional raw environment value.
pub open spec fn raw_view(raw: Option<&str>) -> Option<Seq<char>> {
    match raw {
        Some(s) => Some(s@),
        None => None,
    }
}

/// The cache after one access: unchanged but for a successful first parse.
pub open spec fn config_step(
    m: Map<Seq<char>, ConfigModel>,
    key: Seq<char>,
    raw: Option<Seq<char>>,
) -> Map<Seq<char>, ConfigModel> {
    if m.contains_key(key) || raw is None || parse_fails(key, raw->Some_0) {
        m
    } else {
        m.insert(key, parse_model(key, raw->Some_0))
    }
}

/// What one access resolves to: `None` means it fails (an unset key, or a
/// raw value that does not parse).
pub open spec fn config_step_value(
    m: Map<Seq<char>, ConfigModel>,
    key: Seq<char>,
    raw: Option<Seq<char>>,
) -> Option<ConfigModel> {
    if m.contains_key(key) {
        Some(m[key])
    } else if raw is Some && !parse_fails(key, raw->Some_0) {
        Some(parse_model(key, raw->Some_0))
    } else {
        None
    }
}

/// An access fails for want of the environment variable.
pub open spec fn config_step_unset(
    m: Map<Seq<char>, ConfigModel>,
    key: Seq<char>,
    raw: Option<Seq<char>>,
) -> bool {
    !m.contains_key(key) && raw is None
}

/// Cache idempotence: once an access for a key has resolved a value, any
/// later access for that key resolves the same value and leaves the cache
/// unchanged, whatever the environment holds by then.
pub proof fn lemma_config_idempotent(
    m: Map<Seq<char>, ConfigModel>,
    key: Seq<char>,
    raw1: Option<Seq<char>>,
    raw2: Option<Seq<char>>,
)
    requires
        config_step_value(m, key, raw1) is Some,
    ensures
        ({
            let m1 = config_step(m, key, raw1);
            &&& config_step_value(m1, key, raw2) == config_step_value(m, key, raw1)
            &&& config_step(m1, key, raw2) == m1
        }),
{
}

/// The configuration cache. Its model is the map of the keys parsed so far.
pub struct Config {
    cache: StrMap<ConfigValue>,
}

impl View for Config {
    type V = Map<Seq<char>, ConfigModel>;

    closed spec fn view(&self) -> Map<Seq<char>, ConfigModel> {
        self.cache@.map_values(|v: ConfigValue| v@)
    }
}

impl Config {
    /// An empty cache.
    pub fn new() -> (r: Config)
        ensures
            r@ == Map::<Seq<char>, ConfigModel>::empty(),
    {
        let c = Config { cache: StrMap::new() };
        proof {
            assert(c@ =~= Map::<Seq<char>, ConfigModel>::empty());
        }
        c
    }

    /// Resolves a key. `raw` is the environment's value for the key (`None`
    /// when unset) and is consulted only on a cache miss: a cached key is
    /// answered from the cache alone, unchanged, whatever the environment
    /// now holds.
    pub fn get(&mut self, key: &str, raw: Option<&str>) -> (r: Result<ConfigValue, AppError>)
        ensures
            final(self)@ == config_step(old(self)@, key@, raw_view(raw)),
            config_step_value(old(self)@, key@, raw_view(raw)) matches Some(m) ==> r is Ok
                && r->Ok_0@ == m,
            config_step_unset(old(self)@, key@, raw_view(raw)) ==> r is Err && r->Err_0 is EnvVar
                && r->Err_0->EnvVar_0@ == key@,
            config_step_value(old(self)@, key@, raw_view(raw)) is None && !config_step_unset(
                old(self)@,
                key@,
                raw_view(raw),
            ) ==> r == Err::<ConfigValue, AppError>(AppError::ParseInt),
    {
        if let Some(v) = self.cache.get(key) {
            let value = v.clone();
            proof {
                assert(self@ =~= old(self)@);
                assert(old(self)@[key@] == value@);
            }
            return Ok(value);
        }
        let raw_value = match raw {
            Some(s) => s,
            None => {
                proof {
                    assert(self@ =~= old(self)@);
                }
                return Err(AppError::EnvVar(String::from_str(key)));
            },
        };
        match parse_value(key, raw_value) {
            Ok(parsed) => {
                let stored = parsed.clone();
                self.cache.insert(String::from_str(key), stored);
                proof {
                    assert(self@ =~= old(self)@.insert(key@, parsed@));
                }
                Ok(parsed)
            },
            Err(e) => {
                proof {
                    assert(self@ =~= old(self)@);
                }
                Err(e)
            },
        }
    }

    /// Resolves a key to a boolean; a value of another type is a mismatch.
    pub fn get_flag(&mut self, key: &str, raw: Option<&str>) -> (r: Result<bool, AppError>)
        ensures
            final(self)@ == config_step(old(self)@, key@, raw_view(raw)),
            config_step_value(old(self)@, key@, raw_view(raw)) matches Some(m) ==> match m {
                ConfigModel::Flag(b) => r == Ok::<bool, AppError>(b),
                _ => r is Err && r->Err_0 is TypeMismatch && r->Err_0->TypeMismatch_0@ == key@,
            },
            config_step_unset(old(self)@, key@, raw_view(raw)) ==> r is Err && r->Err_0
                is EnvVar && r->Err_0->EnvVar_0@ == key@,
            config_step_value(old(self)@, key@, raw_view(raw)) is None && !config_step_unset(
                old(self)@,
                key@,
                raw_view(raw),
            ) ==> r == Err::<bool, AppError>(AppError::ParseInt),
    {
        let v = self.get(key, raw)?;
        match v.as_flag() {
            Ok(b) => Ok(b),
            Err(_) => Err(AppError::TypeMismatch(String::from_str(key))),
        }
    }

    /// Resolves a key to a string; a value of another type is a mismatch.
    pub fn get_text(&mut self, key: &str, raw: Option<&str>) -> (r: Result<String, AppError>)
        ensures
            final(self)@ == config_step(old(self)@, key@, raw_view(raw)),
            config_step_value(old(self)@, key@, raw_view(raw)) matches Some(m) ==> match m {
                ConfigModel::Text(s) => r is Ok && r->Ok_0@ == s,
                _ => r is Err && r->Err_0 is TypeMismatch && r->Err_0->TypeMismatch_0@ == key@,
            },
            config_step_unset(old(self)@, key@, raw_view(raw)) ==> r is Err && r->Err_0
                is EnvVar && r->Err_0->EnvVar_0@ == key@,
            config_step_value(old(self)@, key@, raw_view(raw)) is None && !config_step_unset(
                old(self)@,
                key@,
                raw_view(raw),
            ) ==> r == Err::<String, AppError>(AppError::ParseInt),
    {
        let v = self.get(key, raw)?;
        match v.as_text() {
            Ok(s) => Ok(s),
            Err(_) => Err(AppError::TypeMismatch(String::from_str(key))),
        }
    }

    /// Resolves a key to a list; a value of another type is a mismatch.
    pub fn get_list(&mut self, key: &str, raw: Option<&str>) -> (r: Result<
        Vec<String>,
        AppError,
    >)
        ensures
            final(self)@ == config_step(old(self)@, key@, raw_view(raw)),
            config_step_value(old(self)@, key@, raw_view(raw)) matches Some(m) ==> match m {
                ConfigModel::List(xs) => r is Ok && str_views(r->Ok_0@) == xs,
                _ => r is Err && r->Err_0 is TypeMismatch && r->Err_0->TypeMismatch_0@ == key@,
            },
            config_step_unset(old(self)@, key@, raw_view(raw)) ==> r is Err && r->Err_0
                is EnvVar && r->Err_0->EnvVar_0@ == key@,
            config_step_value(old(self)@, key@, raw_view(raw)) is None && !config_step_unset(
                old(self)@,
                key@,
                raw_view(raw),
            ) ==> r == Err::<Vec<String>, AppError>(AppError::ParseInt),
    {
        let v = self.get(key, raw)?;
        match v.as_list() {
            Ok(xs) => Ok(xs),
            Err(_) => Err(AppError::TypeMismatch(String::from_str(key))),
        }
    }

    /// Resolves a key to a duration in milliseconds; a value of another
    /// type is a mismatch.
    pub fn get_millis(&mut self, key: &str, raw: Option<&str>) -> (r: Result<u64, AppError>)
        ensures
            final(self)@ == config_step(old(self)@, key@, raw_view(raw)),
            config_step_value(old(self)@, key@, raw_view(raw)) matches Some(m) ==> match m {
                ConfigModel::Millis(d) => r == Ok::<u64, AppError>(d),
                _ => r is Err && r->Err_0 is TypeMismatch && r->Err_0->TypeMismatch_0@ == key@,
            },
            config_step_unset(old(self)@, key@, raw_view(raw)) ==> r is Err && r->Err_0
                is EnvVar && r->Err_0->EnvVar_0@ == key@,
            config_step_value(old(self)@, key@, raw_view(raw)) is None && !config_step_unset(
                old(self)@,
                key@,
                raw_view(raw),
            ) ==> r == Err::<u64, AppError>(AppError::ParseInt),
    {
        let v = self.get(key, raw)?;
        match v.as_millis() {
            Ok(d) => Ok(d),
            Err(_) => Err(AppError::TypeMismatch(String::from_str(key))),
        }
    }
}

} // verus!
