//! The `config.json` record, its defaults, the decryption of its stored
//! secrets and its validation.
use crate::config::fernet::{decrypt_with_key, derive_key, fernet_decrypt, machine_key, ConfigError};
use crate::text::str_eq;
use vstd::prelude::*;
use vstd::string::*;

verus! {

/// One entry of the multi-provider configuration.
#[derive(Debug, Clone)]
pub struct ProviderEntry {
    /// Decrypted API key.
    pub api_key: String,
    /// The key as stored: a Fernet token.
    pub api_key_encrypted: Option<String>,
    pub model: Option<String>,
}

/// The configuration file's record.
///
/// Maps of the file are held as lists of (name, value) pairs in file order;
/// a name occurs at most once (`config_wf`).
#[derive(Debug, Clone)]
pub struct GclawConfig {
    pub username: String,
    pub ai_name: String,
    pub provider: String,
    /// Decrypted API key (filled from `api_key_encrypted` when loading).
    pub api_key: String,
    /// The API key as stored: a Fernet token.
    pub api_key_encrypted: Option<String>,
    pub language: String,
    pub stt_engine: String,
    pub first_run_done: bool,
    pub web_remote: bool,
    pub gateway_token: String,
    pub ollama_model: Option<String>,
    pub ollama_url: String,
    pub cloud_model: Option<String>,
    /// Multi-provider configuration, by provider name.
    pub providers: Vec<(String, ProviderEntry)>,
    pub email_address: Option<String>,
    pub wake_up_time: Option<String>,
    pub wake_up_recurrence: Option<String>,
    /// Per-tool timeouts in seconds, by tool name.
    pub tool_timeouts: Vec<(String, u64)>,
}

/// Default `language`: `auto`.
pub fn default_language() -> (r: String)
    ensures
        r@ == "auto"@,
{
    String::from_str("auto")
}

/// Default `stt_engine`: `whisper`.
pub fn default_stt_engine() -> (r: String)
    ensures
        r@ == "whisper"@,
{
    String::from_str("whisper")
}

/// Default `ollama_url`: `http://localhost:11434`.
pub fn default_ollama_url() -> (r: String)
    ensures
        r@ == "http://localhost:11434"@,
{
    String::from_str("http://localhost:11434")
}

/// The providers a configuration may name.
pub open spec fn is_valid_provider(p: Seq<char>) -> bool {
    p == "ollama"@ || p == "openai"@ || p == "anthropic"@ || p == "openrouter"@
}

/// What validating a configuration gives.
pub open spec fn validation(c: GclawConfig) -> Result<(), ConfigError> {
    if c.username@.len() == 0 {
        Err(ConfigError::MissingUsername)
    } else if c.ai_name@.len() == 0 {
        Err(ConfigError::MissingAiName)
    } else if !is_valid_provider(c.provider@) {
        Err(ConfigError::InvalidProvider(c.provider))
    } else {
        Ok(())
    }
}

/// The API key kept after trying to decrypt `encrypted` under `key`: the
/// plaintext when there is a non-empty token that decrypts, else `current`.
pub open spec fn decrypted_key(current: Seq<char>, encrypted: Option<String>, key: Seq<u8>) -> Seq<
    char,
> {
    match encrypted {
        Some(e) => if e@.len() > 0 {
            match fernet_decrypt(key, e@) {
                Ok(p) => p,
                Err(_) => current,
            }
        } else {
            current
        },
        None => current,
    }
}

/// No name occurs twice among the names of `entries`, as in a map keyed by
/// name.
pub open spec fn names_unique<V>(entries: Seq<(String, V)>) -> bool {
    forall|i: int, j: int|
        0 <= i < j < entries.len() ==> (#[trigger] entries[i]).0@ != (#[trigger] entries[j]).0@
}

/// The configuration's lists are maps: no provider and no tool is named
/// twice.
pub open spec fn config_wf(c: GclawConfig) -> bool {
    names_unique(c.providers@) && names_unique(c.tool_timeouts@)
}

/// `after` is `before` with its provider key decrypted under `key`.
pub open spec fn provider_decrypted(
    before: (String, ProviderEntry),
    after: (String, ProviderEntry),
    key: Seq<u8>,
) -> bool {
    &&& after.0 == before.0
    &&& after.1.api_key_encrypted == before.1.api_key_encrypted
    &&& after.1.model == before.1.model
    &&& after.1.api_key@ == decrypted_key(before.1.api_key@, before.1.api_key_encrypted, key)
}

/// Every field but the API keys is the same.
pub open spec fn same_settings(a: GclawConfig, b: GclawConfig) -> bool {
    &&& a.username == b.username
    &&& a.ai_name == b.ai_name
    &&& a.provider == b.provider
    &&& a.api_key_encrypted == b.api_key_encrypted
    &&& a.language == b.language
    &&& a.stt_engine == b.stt_engine
    &&& a.first_run_done == b.first_run_done
    &&& a.web_remote == b.web_remote
    &&& a.gateway_token == b.gateway_token
    &&& a.ollama_model == b.ollama_model
    &&& a.ollama_url == b.ollama_url
    &&& a.cloud_model == b.cloud_model
    &&& a.email_address == b.email_address
    &&& a.wake_up_time == b.wake_up_time
    &&& a.wake_up_recurrence == b.wake_up_recurrence
    &&& a.tool_timeouts == b.tool_timeouts
}

/// `after` is `before` with the main key and every provider key decrypted
/// under `key`.
pub open spec fn keys_decrypted(before: GclawConfig, after: GclawConfig, key: Seq<u8>) -> bool {
    &&& same_settings(before, after)
    &&& after.api_key@ == decrypted_key(before.api_key@, before.api_key_encrypted, key)
    &&& after.providers@.len() == before.providers@.len()
    &&& forall|i: int|
        0 <= i < before.providers@.len() ==> #[trigger] provider_decrypted(
            before.providers@[i],
            after.providers@[i],
            key,
        )
}

/// What decrypting the keys does to each of them: a key with no stored
/// token, or an empty one, is kept as parsed; a token that decrypts under
/// `key` gives the key its plaintext; a token that does not decrypt leaves
/// the key as parsed. The same holds of the main key and of every
/// provider's key, and nothing else changes.
pub proof fn law_keys_kept_without_token(before: GclawConfig, after: GclawConfig, key: Seq<u8>)
    requires
        keys_decrypted(before, after, key),
    ensures
        before.api_key_encrypted is None ==> after.api_key@ == before.api_key@,
        match before.api_key_encrypted {
            None => after.api_key@ == before.api_key@,
            Some(t) => if t@.len() == 0 {
                after.api_key@ == before.api_key@
            } else {
                after.api_key@ == match fernet_decrypt(key, t@) {
                    Ok(p) => p,
                    Err(_) => before.api_key@,
                }
            },
        },
        after.providers@.len() == before.providers@.len(),
        forall|i: int|
            0 <= i < before.providers@.len() ==> {
                let (name, b) = #[trigger] before.providers@[i];
                let a = after.providers@[i].1;
                &&& after.providers@[i].0 == name
                &&& a.api_key_encrypted == b.api_key_encrypted
                &&& a.model == b.model
                &&& match b.api_key_encrypted {
                    None => a.api_key@ == b.api_key@,
                    Some(t) => if t@.len() == 0 {
                        a.api_key@ == b.api_key@
                    } else {
                        a.api_key@ == match fernet_decrypt(key, t@) {
                            Ok(p) => p,
                            Err(_) => b.api_key@,
                        }
                    },
                }
            },
{
    assert forall|i: int| 0 <= i < before.providers@.len() implies {
        let (name, b) = #[trigger] before.providers@[i];
        let a = after.providers@[i].1;
        &&& after.providers@[i].0 == name
        &&& a.api_key_encrypted == b.api_key_encrypted
        &&& a.model == b.model
        &&& match b.api_key_encrypted {
            None => a.api_key@ == b.api_key@,
            Some(t) => if t@.len() == 0 {
                a.api_key@ == b.api_key@
            } else {
                a.api_key@ == match fernet_decrypt(key, t@) {
                    Ok(p) => p,
                    Err(_) => b.api_key@,
                }
            },
        }
    } by {
        assert(provider_decrypted(before.providers@[i], after.providers@[i], key));
    }
}

/// The key kept for one stored secret: the decryption of a non-empty
/// token when it succeeds, else `current` (a failure only loses the secret).
fn decrypt_stored(current: String, encrypted: &Option<String>, key: &[u8; 32]) -> (r: String)
    ensures
        r@ == decrypted_key(current@, *encrypted, key@),
{
    match encrypted {
        Some(e) => {
            if e.as_str().is_empty() {
                current
            } else {
                match decrypt_with_key(key, e.as_str()) {
                    Ok(k) => k,
                    Err(_) => current,
                }
            }
        },
        None => current,
    }
}

/// Decrypts the main API key and every provider key under `key`.
///
/// A key whose token is absent, empty or does not decrypt is kept as it is.
pub fn apply_decryption(config: GclawConfig, key: &[u8; 32]) -> (r: GclawConfig)
    ensures
        keys_decrypted(config, r, key@),
        config_wf(config) ==> config_wf(r),
{
    let ghost before = config;
    let mut c = config;
    let current = c.api_key.clone();
    c.api_key = decrypt_stored(current, &c.api_key_encrypted, key);
    let mut providers = c.providers;
    c.providers = Vec::new();
    let n = providers.len();
    let mut out: Vec<(String, ProviderEntry)> = Vec::new();
    let mut i: usize = 0;
    while i < n
        invariant
            n == before.providers@.len(),
            i <= n,
            providers@ == before.providers@.skip(i as int),
            out@.len() == i,
            forall|j: int| 0 <= j < i ==> #[trigger] provider_decrypted(
                before.providers@[j],
                out@[j],
                key@,
            ),
        decreases n - i,
    {
        let (name, entry) = providers.remove(0);
        assert((name, entry) == before.providers@[i as int]);
        let new_key = decrypt_stored(entry.api_key, &entry.api_key_encrypted, key);
        let new_entry = ProviderEntry {
            api_key: new_key,
            api_key_encrypted: entry.api_key_encrypted,
            model: entry.model,
        };
        out.push((name, new_entry));
        assert(providers@ =~= before.providers@.skip(i + 1));
        i = i + 1;
    }
    c.providers = out;
    proof {
        if config_wf(before) {
            assert forall|a: int, b: int| 0 <= a < b < c.providers@.len() implies (
            #[trigger] c.providers@[a]).0@ != (#[trigger] c.providers@[b]).0@ by {
                assert(provider_decrypted(before.providers@[a], c.providers@[a], key@));
                assert(provider_decrypted(before.providers@[b], c.providers@[b], key@));
            }
        }
    }
    c
}

/// Checks the required fields: `username` and `ai_name` must be non-empty
/// and `provider` one of ollama, openai, anthropic, openrouter, checked in
/// that order.
pub fn validate_config(config: &GclawConfig) -> (r: Result<(), ConfigError>)
    ensures
        r == validation(*config),
{
    if config.username.as_str().is_empty() {
        return Err(ConfigError::MissingUsername);
    }
    if config.ai_name.as_str().is_empty() {
        return Err(ConfigError::MissingAiName);
    }
    let p = config.provider.as_str();
    if str_eq(p, "ollama") || str_eq(p, "openai") || str_eq(p, "anthropic") || str_eq(
        p,
        "openrouter",
    ) {
        Ok(())
    } else {
        Err(ConfigError::InvalidProvider(config.provider.clone()))
    }
}

/// Decrypts the stored secrets of a freshly parsed configuration with the
/// outcome of deriving the machine key, then validates it.
///
/// With a key, every stored secret that decrypts under it replaces the key
/// as parsed; without one (`Err`), the configuration stays as parsed. The
/// result is validation's error when validation fails, else the
/// configuration.
pub fn decrypt_and_validate_with(config: GclawConfig, key: Result<[u8; 32], ConfigError>) -> (r:
    Result<GclawConfig, ConfigError>)
    ensures
        validation(config) is Err ==> r == Err::<GclawConfig, ConfigError>(
            validation(config)->Err_0,
        ),
        validation(config) is Ok ==> r is Ok,
        r matches Ok(c) ==> match key {
            Ok(k) => keys_decrypted(config, c, k@),
            Err(_) => c == config,
        },
        r matches Ok(c) ==> (config_wf(config) ==> config_wf(c)),
{
    let ghost before = config;
    let c = match key {
        Ok(k) => apply_decryption(config, &k),
        Err(_) => config,
    };
    assert(validation(c) == validation(before));
    match validate_config(&c) {
        Ok(()) => Ok(c),
        Err(e) => Err(e),
    }
}

/// Decrypts the stored secrets of a freshly parsed configuration under this
/// machine's key, then validates it: `decrypt_and_validate_with` on the
/// outcome of `derive_key`.
///
/// When the machine key cannot be derived, or a token does not decrypt, the
/// key concerned is left as parsed. The result is an error exactly when
/// validation fails, and then it is validation's error.
pub fn decrypt_and_validate(config: GclawConfig) -> (r: Result<GclawConfig, ConfigError>)
    ensures
        validation(config) is Err ==> r == Err::<GclawConfig, ConfigError>(
            validation(config)->Err_0,
        ),
        validation(config) is Ok ==> r is Ok,
        r matches Ok(c) ==> c == config || exists|h: Seq<char>, u: Seq<char>|
            keys_decrypted(config, c, machine_key(h, u)),
        r matches Ok(c) ==> (config_wf(config) ==> config_wf(c)),
{
    let key = derive_key();
    decrypt_and_validate_with(config, key)
}

} // verus!
