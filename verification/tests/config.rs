//! Configuration defaults, Fernet secrets and validation.
use base64::Engine;
use gclaw::config::fernet::{
    decrypt_value, decrypt_with_key, derive_key, encrypt_with, key_from_identity, ConfigError,
};
use gclaw::config::settings::{
    apply_decryption, decrypt_and_validate, decrypt_and_validate_with, default_language, default_ollama_url,
    default_stt_engine, validate_config, GclawConfig, ProviderEntry,
};

#[test]
fn derive_key_is_deterministic() {
    let k1 = derive_key().unwrap();
    let k2 = derive_key().unwrap();
    assert_eq!(k1, k2);
    assert_eq!(k1.len(), 32);
}

#[test]
fn encrypt_decrypt_roundtrip() {
    let plaintext = "sk-test-key-12345";
    let key = derive_key().unwrap();
    let encrypted = encrypt_with(&key, plaintext, &[7u8; 16], 1_700_000_000);
    assert_ne!(encrypted, plaintext);
    let decrypted = decrypt_value(&encrypted).unwrap();
    assert_eq!(decrypted, plaintext);
}

#[test]
fn key_from_identity_is_sha256_of_host_colon_user() {
    // SHA-256("host:user")
    let k = key_from_identity("host", "user");
    let hex: String = k.iter().map(|b| format!("{b:02x}")).collect();
    assert_eq!(hex, "2e1a29e6f4ef54b9cd66471b5a7b3b00c608f865df8b0429f10af512ae023a4e");
    assert_ne!(key_from_identity("host", "user"), key_from_identity("host", "usr"));
    assert_eq!(key_from_identity("host", "user"), key_from_identity("host", "user"));
}

#[test]
fn fernet_token_layout() {
    let key = [3u8; 32];
    let token = encrypt_with(&key, "hi", &[9u8; 16], 0x0102030405060708);
    let raw = base64::engine::general_purpose::URL_SAFE.decode(&token).unwrap();
    // version | timestamp | iv | one block | hmac
    assert_eq!(raw.len(), 1 + 8 + 16 + 16 + 32);
    assert_eq!(raw[0], 0x80);
    assert_eq!(&raw[1..9], &[1, 2, 3, 4, 5, 6, 7, 8]);
    assert_eq!(&raw[9..25], &[9u8; 16]);
    assert_eq!(decrypt_with_key(&key, &token).unwrap(), "hi");
}

#[test]
fn fernet_errors() {
    let key = [3u8; 32];
    assert!(matches!(decrypt_with_key(&key, "not base64 !!"), Err(ConfigError::Base64)));
    assert!(matches!(decrypt_with_key(&key, "AAAA"), Err(ConfigError::TokenTooShort(3))));
    let token = encrypt_with(&key, "secret", &[1u8; 16], 5);
    // Wrong key: the HMAC does not match.
    assert!(matches!(decrypt_with_key(&[4u8; 32], &token), Err(ConfigError::HmacMismatch)));
    // Wrong version byte.
    let mut raw = base64::engine::general_purpose::URL_SAFE.decode(&token).unwrap();
    raw[0] = 0x81;
    let bad = base64::engine::general_purpose::URL_SAFE.encode(&raw);
    assert!(matches!(decrypt_with_key(&key, &bad), Err(ConfigError::BadVersion(0x81))));
    // Unpadded tokens are accepted too.
    let unpadded = token.trim_end_matches('=');
    assert_eq!(decrypt_with_key(&key, unpadded).unwrap(), "secret");
}

fn sample_config() -> GclawConfig {
    GclawConfig {
        username: "Denis".into(),
        ai_name: "G".into(),
        provider: "ollama".into(),
        api_key: "ollama".into(),
        api_key_encrypted: None,
        language: default_language(),
        stt_engine: default_stt_engine(),
        first_run_done: true,
        web_remote: false,
        gateway_token: "test123".into(),
        ollama_model: None,
        ollama_url: default_ollama_url(),
        cloud_model: None,
        providers: vec![],
        email_address: None,
        wake_up_time: None,
        wake_up_recurrence: None,
        tool_timeouts: vec![],
    }
}

#[test]
fn defaults() {
    assert_eq!(default_language(), "auto");
    assert_eq!(default_stt_engine(), "whisper");
    assert_eq!(default_ollama_url(), "http://localhost:11434");
}

#[test]
fn validation_errors_in_order() {
    let c = sample_config();
    assert!(validate_config(&c).is_ok());
    let mut bad = sample_config();
    bad.username = String::new();
    bad.ai_name = String::new();
    assert!(matches!(validate_config(&bad), Err(ConfigError::MissingUsername)));
    let mut bad = sample_config();
    bad.ai_name = String::new();
    assert!(matches!(validate_config(&bad), Err(ConfigError::MissingAiName)));
    let mut bad = sample_config();
    bad.provider = "gemini".into();
    assert!(matches!(validate_config(&bad), Err(ConfigError::InvalidProvider(p)) if p == "gemini"));
    for p in ["ollama", "openai", "anthropic", "openrouter"] {
        let mut c = sample_config();
        c.provider = p.into();
        assert!(validate_config(&c).is_ok());
    }
}

#[test]
fn decryption_replaces_only_decryptable_keys() {
    let key = [5u8; 32];
    let mut c = sample_config();
    c.api_key_encrypted = Some(encrypt_with(&key, "sk-main", &[2u8; 16], 10));
    c.providers = vec![
        ("openai".into(), ProviderEntry {
            api_key: String::new(),
            api_key_encrypted: Some(encrypt_with(&key, "sk-openai", &[3u8; 16], 10)),
            model: Some("gpt".into()),
        }),
        ("broken".into(), ProviderEntry {
            api_key: "kept".into(),
            api_key_encrypted: Some("garbage".into()),
            model: None,
        }),
        ("empty".into(), ProviderEntry {
            api_key: "also kept".into(),
            api_key_encrypted: Some(String::new()),
            model: None,
        }),
    ];
    let d = apply_decryption(c, &key);
    assert_eq!(d.api_key, "sk-main");
    assert_eq!(d.providers[0].0, "openai");
    assert_eq!(d.providers[0].1.api_key, "sk-openai");
    assert_eq!(d.providers[0].1.model.as_deref(), Some("gpt"));
    assert_eq!(d.providers[1].1.api_key, "kept");
    assert_eq!(d.providers[2].1.api_key, "also kept");
    assert_eq!(d.username, "Denis");
}

#[test]
fn load_with_machine_key() {
    let key = derive_key().unwrap();
    let mut c = sample_config();
    c.api_key_encrypted = Some(encrypt_with(&key, "sk-machine", &[8u8; 16], 99));
    let loaded = decrypt_and_validate(c).unwrap();
    assert_eq!(loaded.api_key, "sk-machine");
    let mut bad = sample_config();
    bad.provider = "nope".into();
    assert!(matches!(decrypt_and_validate(bad), Err(ConfigError::InvalidProvider(_))));
}

#[test]
fn token_length_follows_the_ciphertext() {
    let key = [5u8; 32];
    // 0 bytes of plaintext: one padding block, 73 token bytes, 100 base64 characters.
    let empty = encrypt_with(&key, "", &[0u8; 16], 0);
    assert_eq!(empty.len(), 100);
    assert_ne!(empty, "");
    // 16 bytes: two blocks, 89 token bytes, 120 characters.
    let t = encrypt_with(&key, "0123456789abcdef", &[0u8; 16], 0);
    assert_eq!(t.len(), 120);
    assert_eq!(decrypt_with_key(&key, &t).unwrap(), "0123456789abcdef");
}

#[test]
fn load_with_given_key_outcome() {
    let key = [6u8; 32];
    let mut c = sample_config();
    c.api_key = "as parsed".into();
    c.api_key_encrypted = Some(encrypt_with(&key, "sk-given", &[1u8; 16], 3));
    let with_key = decrypt_and_validate_with(c.clone(), Ok(key)).unwrap();
    assert_eq!(with_key.api_key, "sk-given");
    let without = decrypt_and_validate_with(c, Err(ConfigError::Hostname)).unwrap();
    assert_eq!(without.api_key, "as parsed");
    let mut bad = sample_config();
    bad.username = String::new();
    assert!(matches!(decrypt_and_validate_with(bad, Ok(key)), Err(ConfigError::MissingUsername)));
}
