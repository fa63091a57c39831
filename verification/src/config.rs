//! Configuration and credential resolution.
//!
//! A configuration is resolved once per invocation from layered sources,
//! highest precedence first: an explicit per-invocation override, the
//! persisted configuration store, a process environment variable (credential
//! only), and the built-in defaults. Reading the store, the environment and
//! the home directory is the caller's part; this module takes their values and
//! decides.
use crate::errors::ClientError;
use vstd::prelude::*;

verus! {

pub const DEFAULT_MAX_TOKENS: u32 = 1024;

/// The default sampling temperature, in thousandths. Temperatures are carried
/// as thousandths throughout, so seven hundred stands for 0.7.
pub const DEFAULT_TEMPERATURE_MILLI: u32 = 700;

pub open spec fn spec_default_model() -> Seq<char> {
    "openrouter/auto"@
}

/// The built-in default model.
pub fn default_model() -> (r: String)
    ensures
        r@ == spec_default_model(),
{
    String::from_str("openrouter/auto")
}

/// The resolved configuration of one invocation. Immutable once resolved,
/// except for the explicit credential-set operation.
#[derive(Debug)]
pub struct Config {
    pub api_key: String,
    pub model: String,
    pub max_tokens: u32,
    /// The sampling temperature, in thousandths.
    pub temperature_milli: u32,
}

pub open spec fn spec_default_config(c: Config) -> bool {
    &&& c.api_key@ == Seq::<char>::empty()
    &&& c.model@ == spec_default_model()
    &&& c.max_tokens == DEFAULT_MAX_TOKENS
    &&& c.temperature_milli == DEFAULT_TEMPERATURE_MILLI
}

impl Default for Config {
    /// The built-in defaults: empty credential, the default model, 1024
    /// tokens, temperature 0.7.
    fn default() -> (r: Config)
        ensures
            spec_default_config(r),
    {
        Config {
            api_key: String::new(),
            model: default_model(),
            max_tokens: DEFAULT_MAX_TOKENS,
            temperature_milli: DEFAULT_TEMPERATURE_MILLI,
        }
    }
}

impl Config {
    /// An exact copy.
    pub fn duplicate(&self) -> (r: Config)
        ensures
            r == *self,
    {
        Config {
            api_key: self.api_key.clone(),
            model: self.model.clone(),
            max_tokens: self.max_tokens,
            temperature_milli: self.temperature_milli,
        }
    }
}

/// The display form of a credential: eight asterisks, then its last four
/// characters where it is long enough for that tail to give nothing away. An
/// empty credential stays empty.
pub fn mask_api_key(api_key: &str) -> (r: String)
    ensures
        api_key@.len() == 0 ==> r@ == Seq::<char>::empty(),
        0 < api_key@.len() <= 4 ==> r@ == "********"@,
        api_key@.len() > 4 ==> r@ == "********"@ + api_key@.skip(api_key@.len() - 4),
{
    let chars = crate::text::str_to_chars(api_key);
    let n = chars.len();
    if n == 0 {
        return String::new();
    }
    let mut out = crate::text::str_to_chars("********");
    if n > 4 {
        let mut i: usize = n - 4;
        proof {
            assert(out@ =~= "********"@ + chars@.subrange(n - 4, i as int));
        }
        while i < n
            invariant
                4 < n,
                n - 4 <= i <= n == chars@.len(),
                chars@ == api_key@,
                out@ == "********"@ + chars@.subrange(n - 4, i as int),
            decreases n - i,
        {
            out.push(chars[i]);
            i = i + 1;
            proof {
                assert("********"@ + chars@.subrange(n - 4, i as int) =~= ("********"@
                    + chars@.subrange(n - 4, i - 1)).push(chars@[i - 1]));
            }
        }
        proof {
            assert(chars@.subrange(n - 4, n as int) =~= api_key@.skip(api_key@.len() - 4));
        }
    }
    crate::text::string_from_chars(&out)
}

// ---------------------------------------------------------------------------
// Paths of the persisted configuration store
// ---------------------------------------------------------------------------
/// The configuration directory under the given home directory.
pub fn get_config_dir(home: &str) -> (r: String)
    ensures
        r@ == home@ + "/.nimbuscode"@,
{
    let s = String::from_str(home);
    s.concat("/.nimbuscode")
}

/// The configuration file under the given home directory.
pub fn get_config_file(home: &str) -> (r: String)
    ensures
        r@ == home@ + "/.nimbuscode"@ + "/config.json"@,
{
    get_config_dir(home).concat("/config.json")
}

// ---------------------------------------------------------------------------
// Source layering
// ---------------------------------------------------------------------------
/// Whether a source yields a usable value: present and non-empty.
pub open spec fn opt_present(o: &Option<String>) -> bool {
    o matches Some(s) && s@.len() > 0
}

/// The credential the layered sources resolve to, if any: the explicit
/// override, else the stored value, else the environment variable.
pub open spec fn spec_resolve_credential(
    explicit: &Option<String>,
    stored: &Option<String>,
    env: &Option<String>,
) -> Option<Seq<char>> {
    if opt_present(explicit) {
        Some(explicit->0@)
    } else if opt_present(stored) {
        Some(stored->0@)
    } else if opt_present(env) {
        Some(env->0@)
    } else {
        None
    }
}

/// Law: credential precedence. For every combination of present and absent
/// sources, the highest-precedence present source wins, and only when all
/// three are absent does resolution fail.
pub proof fn lemma_credential_precedence(
    explicit: Option<String>,
    stored: Option<String>,
    env: Option<String>,
)
    ensures
        opt_present(&explicit) ==> spec_resolve_credential(&explicit, &stored, &env) == Some(
            explicit->0@,
        ),
        !opt_present(&explicit) && opt_present(&stored) ==> spec_resolve_credential(
            &explicit,
            &stored,
            &env,
        ) == Some(stored->0@),
        !opt_present(&explicit) && !opt_present(&stored) && opt_present(&env)
            ==> spec_resolve_credential(&explicit, &stored, &env) == Some(env->0@),
        !opt_present(&explicit) && !opt_present(&stored) && !opt_present(&env)
            ==> spec_resolve_credential(&explicit, &stored, &env) is None,
{
}

fn present(o: &Option<String>) -> (r: bool)
    ensures
        r == opt_present(o),
{
    match o {
        Some(s) => !s.as_str().is_empty(),
        None => false,
    }
}

/// Resolves the credential from the layered sources, highest precedence
/// first: explicit override, stored value, environment variable. Fails with
/// `CredentialMissing` exactly when no source holds a non-empty value.
pub fn resolve_credential(
    explicit: Option<String>,
    stored: Option<String>,
    env: Option<String>,
) -> (r: Result<String, ClientError>)
    ensures
        match spec_resolve_credential(&explicit, &stored, &env) {
            Some(c) => r matches Ok(k) && k@ == c,
            None => r matches Err(e) && e is CredentialMissing,
        },
{
    if present(&explicit) {
        Ok(explicit.unwrap())
    } else if present(&stored) {
        Ok(stored.unwrap())
    } else if present(&env) {
        Ok(env.unwrap())
    } else {
        Err(ClientError::CredentialMissing)
    }
}

/// The credential of an invocation without an explicit override: the stored
/// configuration's key if non-empty, else the environment variable. Fails
/// with `CredentialMissing` before any network activity otherwise.
pub fn get_api_key(config: &Config, env: Option<String>) -> (r: Result<String, ClientError>)
    ensures
        config.api_key@.len() > 0 ==> (r matches Ok(k) && k@ == config.api_key@),
        config.api_key@.len() == 0 && opt_present(&env) ==> (r matches Ok(k) && k@ == env->0@),
        config.api_key@.len() == 0 && !opt_present(&env) ==> (r matches Err(e)
            && e is CredentialMissing),
{
    resolve_credential(None, Some(config.api_key.clone()), env)
}

/// The sources a configuration is resolved from: per-invocation overrides,
/// the persisted store's values, and the credential environment variable.
pub struct ConfigSources {
    pub explicit_api_key: Option<String>,
    pub explicit_model: Option<String>,
    pub explicit_max_tokens: Option<u32>,
    pub explicit_temperature_milli: Option<u32>,
    pub stored_api_key: Option<String>,
    pub stored_model: Option<String>,
    pub stored_max_tokens: Option<u32>,
    pub stored_temperature_milli: Option<u32>,
    pub env_api_key: Option<String>,
}

pub open spec fn spec_resolve_model(explicit: &Option<String>, stored: &Option<String>) -> Seq<
    char,
> {
    if opt_present(explicit) {
        explicit->0@
    } else if opt_present(stored) {
        stored->0@
    } else {
        spec_default_model()
    }
}

pub open spec fn spec_resolve_u32(explicit: &Option<u32>, stored: &Option<u32>, def: u32) -> u32 {
    match explicit {
        Some(v) => *v,
        None => match stored {
            Some(v) => *v,
            None => def,
        },
    }
}

fn resolve_model(explicit: Option<String>, stored: Option<String>) -> (r: String)
    ensures
        r@ == spec_resolve_model(&explicit, &stored),
{
    if present(&explicit) {
        explicit.unwrap()
    } else if present(&stored) {
        stored.unwrap()
    } else {
        default_model()
    }
}

fn resolve_u32(explicit: Option<u32>, stored: Option<u32>, def: u32) -> (r: u32)
    ensures
        r == spec_resolve_u32(&explicit, &stored, def),
{
    match explicit {
        Some(v) => v,
        None => match stored {
            Some(v) => v,
            None => def,
        },
    }
}

/// Resolves the configuration of one invocation from its layered sources.
/// Each field takes the highest-precedence present source; resolution fails
/// with `CredentialMissing` exactly when no credential source holds a
/// non-empty value, before any network activity.
pub fn resolve_config(sources: ConfigSources) -> (r: Result<Config, ClientError>)
    ensures
        match spec_resolve_credential(
            &sources.explicit_api_key,
            &sources.stored_api_key,
            &sources.env_api_key,
        ) {
            Some(key) => {
                &&& r matches Ok(c)
                &&& c.api_key@ == key
                &&& c.model@ == spec_resolve_model(&sources.explicit_model, &sources.stored_model)
                &&& c.max_tokens == spec_resolve_u32(
                    &sources.explicit_max_tokens,
                    &sources.stored_max_tokens,
                    DEFAULT_MAX_TOKENS,
                )
                &&& c.temperature_milli == spec_resolve_u32(
                    &sources.explicit_temperature_milli,
                    &sources.stored_temperature_milli,
                    DEFAULT_TEMPERATURE_MILLI,
                )
            },
            None => r matches Err(e) && e is CredentialMissing,
        },
{
    let api_key = resolve_credential(
        sources.explicit_api_key,
        sources.stored_api_key,
        sources.env_api_key,
    )?;
    Ok(
        Config {
            api_key,
            model: resolve_model(sources.explicit_model, sources.stored_model),
            max_tokens: resolve_u32(
                sources.explicit_max_tokens,
                sources.stored_max_tokens,
                DEFAULT_MAX_TOKENS,
            ),
            temperature_milli: resolve_u32(
                sources.explicit_temperature_milli,
                sources.stored_temperature_milli,
                DEFAULT_TEMPERATURE_MILLI,
            ),
        },
    )
}

// ---------------------------------------------------------------------------
// Updates
// ---------------------------------------------------------------------------
/// Applies per-field updates to a configuration: each given value replaces
/// the present one, each absent value leaves it unchanged.
pub fn apply_config_update(
    config: &mut Config,
    api_key: Option<String>,
    model: Option<String>,
    max_tokens: Option<u32>,
    temperature_milli: Option<u32>,
)
    ensures
        final (config).api_key@ == (match api_key {
            Some(k) => k@,
            None => old(config).api_key@,
        }),
        final (config).model@ == (match model {
            Some(m) => m@,
            None => old(config).model@,
        }),
        final (config).max_tokens == (match max_tokens {
            Some(t) => t,
            None => old(config).max_tokens,
        }),
        final (config).temperature_milli == (match temperature_milli {
            Some(t) => t,
            None => old(config).temperature_milli,
        }),
{
    if let Some(k) = api_key {
        config.api_key = k;
    }
    if let Some(m) = model {
        config.model = m;
    }
    if let Some(t) = max_tokens {
        config.max_tokens = t;
    }
    if let Some(t) = temperature_milli {
        config.temperature_milli = t;
    }
}

/// The credential-set operation, atomic with the persisted store: the caller
/// first writes the new credential through the store and reports the outcome
/// here. On a successful write the in-memory credential is updated; on a
/// failed one both the store and the in-memory configuration are left
/// unchanged and the store's complaint is carried as a `ConfigError`.
pub fn set_api_key(config: &mut Config, api_key: String, store_outcome: Result<
    (),
    String,
>) -> (r: Result<(), ClientError>)
    ensures
        store_outcome is Ok ==> {
            &&& r is Ok
            &&& final (config).api_key@ == api_key@
            &&& final (config).model == old(config).model
            &&& final (config).max_tokens == old(config).max_tokens
            &&& final (config).temperature_milli == old(config).temperature_milli
        },
        store_outcome matches Err(m) ==> {
            &&& r matches Err(e)
            &&& e matches ClientError::ConfigError(em) && em@ == m@
            &&& *final (config) == *old(config)
        },
{
    match store_outcome {
        Ok(()) => {
            config.api_key = api_key;
            Ok(())
        },
        Err(m) => Err(ClientError::ConfigError(m)),
    }
}

} // verus!
