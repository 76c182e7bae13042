//! Fernet tokens for secrets stored in `config.json`.
//!
//! Key: 32 bytes derived from the machine identity, SHA-256 of
//! `"{hostname}:{username}"`; the first 16 bytes sign, the last 16 encrypt.
//! Token (before URL-safe base64): `0x80 | timestamp (8, big-endian) | IV (16)
//! | AES-128-CBC-PKCS7 ciphertext | HMAC-SHA256 of everything before (32)`.
use crate::config::crypto::{
    aes128_cbc_decrypt,
    aes128_cbc_encrypt,
    aes_cbc_decrypt,
    aes_cbc_encrypt,
    base64_url_decode,
    base64_url_decode_text,
    base64_url_encode,
    base64_url_encode_bytes,
    base64_url_nopad_decode,
    base64_url_nopad_decode_text,
    hmac_sha256,
    hmac_sha256_tag,
    hmac_sha256_verify,
    machine_hostname,
    sha256,
    sha256_digest,
    string_from_utf8,
    user_name,
};
use vstd::prelude::*;
use vstd::string::*;
use vstd::utf8::{decode_utf8, encode_utf8, valid_utf8};

verus! {

broadcast use vstd::utf8::encode_utf8_valid_utf8, vstd::utf8::encode_utf8_decode_utf8;

/// Fernet version byte.
pub const FERNET_VERSION: u8 = 0x80;

/// Shortest token: version 1 + timestamp 8 + IV 16 + one block 16 + HMAC 32.
pub const FERNET_MIN_TOKEN_LEN: usize = 73;

/// Errors while loading configuration and handling its secrets.
#[derive(Debug, Clone)]
pub enum ConfigError {
    /// The machine's host name could not be read.
    Hostname,
    /// The token is not URL-safe base64.
    Base64,
    /// The decoded token is shorter than `FERNET_MIN_TOKEN_LEN` (its length).
    TokenTooShort(usize),
    /// The token's first byte is not `FERNET_VERSION` (the byte found).
    BadVersion(u8),
    /// The token's HMAC does not match.
    HmacMismatch,
    /// The ciphertext does not decrypt to well-padded plaintext.
    Decrypt,
    /// The plaintext is not UTF-8.
    NotUtf8,
    /// `username` is empty.
    MissingUsername,
    /// `ai_name` is empty.
    MissingAiName,
    /// `provider` is not one of the supported providers (the value found).
    InvalidProvider(String),
}

/// The identity a machine key is derived from: `"{host}:{user}"`.
pub open spec fn machine_identity(host: Seq<char>, user: Seq<char>) -> Seq<char> {
    host + seq![':'] + user
}

/// The 32-byte key of a machine: SHA-256 of its identity in UTF-8.
pub open spec fn machine_key(host: Seq<char>, user: Seq<char>) -> Seq<u8> {
    sha256_digest(encode_utf8(machine_identity(host, user)))
}

/// The half of a key that signs.
pub open spec fn signing_key(key: Seq<u8>) -> Seq<u8> {
    key.take(16)
}

/// The half of a key that encrypts.
pub open spec fn encryption_key(key: Seq<u8>) -> Seq<u8> {
    key.subrange(16, 32)
}

/// The eight big-endian bytes of `n`.
pub open spec fn be_u64_bytes(n: u64) -> Seq<u8> {
    seq![
        (n / 0x100_0000_0000_0000) as u8,
        ((n / 0x1_0000_0000_0000) % 0x100) as u8,
        ((n / 0x100_0000_0000) % 0x100) as u8,
        ((n / 0x1_0000_0000) % 0x100) as u8,
        ((n / 0x100_0000) % 0x100) as u8,
        ((n / 0x1_0000) % 0x100) as u8,
        ((n / 0x100) % 0x100) as u8,
        (n % 0x100) as u8,
    ]
}

/// The signed part of a token: version, timestamp, IV, ciphertext.
pub open spec fn fernet_signed(iv: Seq<u8>, timestamp: u64, ct: Seq<u8>) -> Seq<u8> {
    seq![FERNET_VERSION] + be_u64_bytes(timestamp) + iv + ct
}

/// The bytes of the token that encrypts `pt` under `key` with `iv` at
/// `timestamp`.
pub open spec fn fernet_token_bytes(key: Seq<u8>, iv: Seq<u8>, timestamp: u64, pt: Seq<u8>) -> Seq<
    u8,
> {
    let ct = aes128_cbc_encrypt(encryption_key(key), iv, pt);
    let signed = fernet_signed(iv, timestamp, ct);
    signed + hmac_sha256(signing_key(key), signed)
}

/// The bytes a token text stands for: URL-safe base64 with padding, or else
/// without.
pub open spec fn token_bytes(token: Seq<char>) -> Option<Seq<u8>> {
    match base64_url_decode(token) {
        Some(b) => Some(b),
        None => base64_url_nopad_decode(token),
    }
}

/// What decrypting `token` under `key` gives.
pub open spec fn fernet_decrypt(key: Seq<u8>, token: Seq<char>) -> Result<Seq<char>, ConfigError> {
    match token_bytes(token) {
        None => Err(ConfigError::Base64),
        Some(b) => {
            let n = b.len();
            if n < FERNET_MIN_TOKEN_LEN {
                Err(ConfigError::TokenTooShort(n as usize))
            } else if b[0] != FERNET_VERSION {
                Err(ConfigError::BadVersion(b[0]))
            } else if b.skip(n - 32) != hmac_sha256(signing_key(key), b.take(n - 32)) {
                Err(ConfigError::HmacMismatch)
            } else {
                match aes128_cbc_decrypt(encryption_key(key), b.subrange(9, 25), b.subrange(25, n - 32)) {
                    None => Err(ConfigError::Decrypt),
                    Some(p) => if valid_utf8(p) {
                        Ok(decode_utf8(p))
                    } else {
                        Err(ConfigError::NotUtf8)
                    },
                }
            }
        },
    }
}

/// The key of the machine identified by `host` and `user`.
pub fn key_from_identity(host: &str, user: &str) -> (r: [u8; 32])
    ensures
        r@ == machine_key(host@, user@),
{
    let mut identity = String::from_str(host);
    identity.append(":");
    identity.append(user);
    proof {
        reveal_strlit(":");
    }
    assert(identity@ =~= machine_identity(host@, user@));
    sha256(identity.as_str().as_bytes())
}

/// The key of this machine, from its host name and the current user's name.
///
/// Fails only when the host name cannot be read; the key is that of some
/// identity, as the names are the machine's.
pub fn derive_key() -> (r: Result<[u8; 32], ConfigError>)
    ensures
        r matches Ok(k) ==> exists|h: Seq<char>, u: Seq<char>| k@ == machine_key(h, u),
        r matches Err(e) ==> e == ConfigError::Hostname,
{
    match machine_hostname() {
        None => Err(ConfigError::Hostname),
        Some(host) => {
            let user = user_name();
            let k = key_from_identity(host.as_str(), user.as_str());
            assert(k@ == machine_key(host@, user@));
            Ok(k)
        },
    }
}

/// Appends `data` to `v`.
fn push_all(v: &mut Vec<u8>, data: &[u8])
    ensures
        final(v)@ == old(v)@ + data@,
{
    let mut i: usize = 0;
    while i < data.len()
        invariant
            i <= data@.len(),
            v@ == old(v)@ + data@.take(i as int),
        decreases data@.len() - i,
    {
        v.push(data[i]);
        assert(data@.take(i + 1) =~= data@.take(i as int).push(data@[i as int]));
        i = i + 1;
    }
    assert(data@.take(data@.len() as int) =~= data@);
}

/// Decrypts a Fernet `token` under `key`.
///
/// The token is decoded as URL-safe base64 (padded, else unpadded), checked
/// for length, version and HMAC, decrypted and read as UTF-8; the first
/// check that fails gives the error.
pub fn decrypt_with_key(key: &[u8; 32], token: &str) -> (r: Result<String, ConfigError>)
    ensures
        match r {
            Ok(s) => fernet_decrypt(key@, token@) == Ok::<Seq<char>, ConfigError>(s@),
            Err(e) => fernet_decrypt(key@, token@) == Err::<Seq<char>, ConfigError>(e),
        },
{
    let bytes = match base64_url_decode_text(token) {
        Some(b) => b,
        None => match base64_url_nopad_decode_text(token) {
            Some(b) => b,
            None => {
                return Err(ConfigError::Base64);
            },
        },
    };
    assert(token_bytes(token@) == Some(bytes@));
    let n = bytes.len();
    if n < FERNET_MIN_TOKEN_LEN {
        return Err(ConfigError::TokenTooShort(n));
    }
    if bytes[0] != FERNET_VERSION {
        return Err(ConfigError::BadVersion(bytes[0]));
    }
    let hmac_offset = n - 32;
    let b = bytes.as_slice();
    let signed = &b[0..hmac_offset];
    let tag = &b[hmac_offset..n];
    let iv = &b[9..25];
    let ct = &b[25..hmac_offset];
    let sign_key = &key[0..16];
    let enc_key = &key[16..32];
    assert(signed@ =~= bytes@.take(hmac_offset as int));
    assert(tag@ =~= bytes@.skip(hmac_offset as int));
    assert(sign_key@ =~= signing_key(key@));
    assert(enc_key@ =~= encryption_key(key@));
    if !hmac_sha256_verify(sign_key, signed, tag) {
        return Err(ConfigError::HmacMismatch);
    }
    let plain = match aes_cbc_decrypt(enc_key, iv, ct) {
        Some(p) => p,
        None => {
            return Err(ConfigError::Decrypt);
        },
    };
    match string_from_utf8(plain) {
        Some(s) => Ok(s),
        None => Err(ConfigError::NotUtf8),
    }
}

/// Decrypts a Fernet `token` under this machine's key.
///
/// Fails with `Hostname` when the key cannot be derived; otherwise the
/// result is that of `decrypt_with_key` under the key of some identity.
pub fn decrypt_value(token: &str) -> (r: Result<String, ConfigError>)
    ensures
        r matches Ok(s) ==> exists|h: Seq<char>, u: Seq<char>|
            fernet_decrypt(machine_key(h, u), token@) == Ok::<Seq<char>, ConfigError>(s@),
        r matches Err(e) ==> e == ConfigError::Hostname || exists|h: Seq<char>, u: Seq<char>|
            fernet_decrypt(machine_key(h, u), token@) == Err::<Seq<char>, ConfigError>(e),
{
    let key = derive_key()?;
    decrypt_with_key(&key, token)
}

/// A text has at least as many UTF-8 bytes as characters.
proof fn lemma_utf8_len_at_least_chars(chars: Seq<char>)
    ensures
        encode_utf8(chars).len() >= chars.len(),
    decreases chars.len(),
{
    if chars.len() > 0 {
        lemma_utf8_len_at_least_chars(chars.drop_first());
    }
}

/// Encrypts `plaintext` into a Fernet token under `key`, with initialization
/// vector `iv` and creation time `timestamp` (seconds since the Unix epoch).
///
/// Decrypting the token under the same key gives `plaintext` back.
pub fn encrypt_with(key: &[u8; 32], plaintext: &str, iv: &[u8; 16], timestamp: u64) -> (r: String)
    requires
        encode_utf8(plaintext@).len() <= usize::MAX / 4,
    ensures
        r@ == base64_url_encode(
            fernet_token_bytes(key@, iv@, timestamp, encode_utf8(plaintext@)),
        ),
        fernet_decrypt(key@, r@) == Ok::<Seq<char>, ConfigError>(plaintext@),
        r@.len() > plaintext@.len(),
        r@ != plaintext@,
        ({
            let ct = aes128_cbc_encrypt(key@.subrange(16, 32), iv@, encode_utf8(plaintext@));
            let signed = seq![0x80u8] + be_u64_bytes(timestamp) + iv@ + ct;
            let tag = hmac_sha256(key@.take(16), signed);
            tag.len() == 32 && base64_url_decode(r@) == Some(signed + tag)
        }),
{
    let pt = plaintext.as_bytes();
    let sign_key = &key[0..16];
    let enc_key = &key[16..32];
    let ivs = &iv[0..16];
    assert(sign_key@ =~= signing_key(key@));
    assert(enc_key@ =~= encryption_key(key@));
    assert(ivs@ =~= iv@);
    let ct = aes_cbc_encrypt(enc_key, ivs, pt);
    let mut signed: Vec<u8> = Vec::new();
    signed.push(FERNET_VERSION);
    signed.push((timestamp / 0x100_0000_0000_0000) as u8);
    signed.push(((timestamp / 0x1_0000_0000_0000) % 0x100) as u8);
    signed.push(((timestamp / 0x100_0000_0000) % 0x100) as u8);
    signed.push(((timestamp / 0x1_0000_0000) % 0x100) as u8);
    signed.push(((timestamp / 0x100_0000) % 0x100) as u8);
    signed.push(((timestamp / 0x1_0000) % 0x100) as u8);
    signed.push(((timestamp / 0x100) % 0x100) as u8);
    signed.push((timestamp % 0x100) as u8);
    push_all(&mut signed, ivs);
    push_all(&mut signed, ct.as_slice());
    assert(signed@ =~= fernet_signed(iv@, timestamp, ct@));
    let tag = hmac_sha256_tag(sign_key, signed.as_slice());
    let ghost signed_part = signed@;
    push_all(&mut signed, &tag);
    let ghost t = signed@;
    assert(t =~= fernet_token_bytes(key@, iv@, timestamp, encode_utf8(plaintext@)));
    let r = base64_url_encode_bytes(signed.as_slice());
    proof {
        let n = t.len();
        assert(token_bytes(r@) == Some(t));
        assert(n == 57 + ct@.len());
        assert(t[0] == FERNET_VERSION);
        assert(t.take(n - 32) =~= signed_part);
        assert(t.skip(n - 32) =~= tag@);
        assert(t.subrange(9, 25) =~= iv@);
        assert(t.subrange(25, n - 32) =~= ct@);
        lemma_utf8_len_at_least_chars(plaintext@);
        let b = encode_utf8(plaintext@).len();
        assert(ct@.len() == (b / 16 + 1) * 16);
        assert((b / 16 + 1) * 16 > b) by (nonlinear_arith);
        let q = (n + 2) / 3;
        assert(3 * q >= n && q >= 1) by (nonlinear_arith)
            requires
                n >= 1,
                q == (n + 2) / 3,
        ;
        assert(4 * q > n);
        assert(r@.len() > plaintext@.len());
        assert(seq![0x80u8] + be_u64_bytes(timestamp) + iv@ + ct@ =~= signed_part);
        assert(key@.take(16) =~= signing_key(key@));
        assert(key@.subrange(16, 32) =~= encryption_key(key@));
    }
    r
}

/// Decryption accepts a token only when it is a real Fernet token under
/// `key`: it decodes to at least 73 bytes, starts with the version byte, and
/// ends with the HMAC-SHA256, under the first 16 key bytes, of every byte
/// before the tag (version, timestamp, IV and ciphertext).
pub proof fn law_decrypt_checks_whole_token(key: Seq<u8>, token: Seq<char>)
    ensures
        fernet_decrypt(key, token) is Ok ==> match token_bytes(token) {
            Some(b) => b.len() >= 73 && b[0] == 0x80 && b.skip(b.len() - 32) == hmac_sha256(
                key.take(16),
                b.take(b.len() - 32),
            ),
            None => false,
        },
{
}

/// A standard Fernet token, however made (version byte, big-endian
/// timestamp, IV, ciphertext, then the HMAC-SHA256 under the first 16 key
/// bytes of all of that), decrypts under `key` to the AES-128-CBC decryption
/// of its ciphertext under the last 16 key bytes, read as UTF-8.
pub proof fn law_standard_token_decrypts(
    key: Seq<u8>,
    iv: Seq<u8>,
    timestamp: u64,
    ct: Seq<u8>,
    token: Seq<char>,
)
    requires
        key.len() == 32,
        iv.len() == 16,
        ct.len() >= 16,
        hmac_sha256(key.take(16), seq![0x80u8] + be_u64_bytes(timestamp) + iv + ct).len() == 32,
        base64_url_decode(token) == Some(
            seq![0x80u8] + be_u64_bytes(timestamp) + iv + ct + hmac_sha256(
                key.take(16),
                seq![0x80u8] + be_u64_bytes(timestamp) + iv + ct,
            ),
        ),
    ensures
        fernet_decrypt(key, token) == match aes128_cbc_decrypt(key.subrange(16, 32), iv, ct) {
            None => Err(ConfigError::Decrypt),
            Some(p) => if valid_utf8(p) {
                Ok(decode_utf8(p))
            } else {
                Err(ConfigError::NotUtf8)
            },
        },
{
    let signed = seq![0x80u8] + be_u64_bytes(timestamp) + iv + ct;
    let tag = hmac_sha256(key.take(16), signed);
    let b = signed + tag;
    let n = b.len();
    assert(token_bytes(token) == Some(b));
    assert(n == 57 + ct.len());
    assert(b[0] == 0x80);
    assert(b.skip(n - 32) =~= tag);
    assert(b.take(n - 32) =~= signed);
    assert(b.subrange(9, 25) =~= iv);
    assert(b.subrange(25, n - 32) =~= ct);
    assert(signing_key(key) =~= key.take(16));
    assert(encryption_key(key) =~= key.subrange(16, 32));
}

} // verus!
