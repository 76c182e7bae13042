//! The cryptographic primitives and encodings that secret handling uses:
//! SHA-256 (`sha2`), HMAC-SHA256 (`hmac`), AES-128-CBC with PKCS#7 padding
//! (`aes`, `cbc`), URL-safe base64 (`base64`), UTF-8 decoding (std), and the
//! machine identity (`hostname`, `whoami`).
use aes::cipher::block_padding::Pkcs7;
use aes::cipher::{BlockDecryptMut, BlockEncryptMut, KeyIvInit};
use base64::engine::general_purpose::{URL_SAFE, URL_SAFE_NO_PAD};
use base64::Engine;
use hmac::{Hmac, Mac};
use sha2::{Digest, Sha256};
use vstd::prelude::*;
use vstd::utf8::{decode_utf8, valid_utf8};

verus! {

/// Result of SHA-256 over `data`.
pub uninterp spec fn sha256_digest(data: Seq<u8>) -> Seq<u8>;

/// Calls `sha2::Sha256::digest`: the 32-byte SHA-256 digest of `data`.
#[verifier::external_body]
pub(crate) fn sha256(data: &[u8]) -> (r: [u8; 32])
    ensures
        r@ == sha256_digest(data@),
{
    Sha256::digest(data).into()
}

/// Result of HMAC-SHA256 of `msg` under `key`.
pub uninterp spec fn hmac_sha256(key: Seq<u8>, msg: Seq<u8>) -> Seq<u8>;

/// Computes the HMAC-SHA256 tag of `msg` under `key` with
/// `hmac::Hmac<Sha256>` (`new_from_slice`, `update`, `finalize`); the tag is
/// 32 bytes. `new_from_slice` accepts keys of any length, so it does not fail.
#[verifier::external_body]
pub(crate) fn hmac_sha256_tag(key: &[u8], msg: &[u8]) -> (r: [u8; 32])
    ensures
        r@ == hmac_sha256(key@, msg@),
{
    let mut mac = Hmac::<Sha256>::new_from_slice(key).expect("HMAC keys may have any length");
    mac.update(msg);
    mac.finalize().into_bytes().into()
}

/// Checks `tag` against the HMAC-SHA256 of `msg` under `key` with
/// `hmac::Mac::verify_slice` (constant-time; a tag of another length than the
/// 32-byte output is refused).
#[verifier::external_body]
pub(crate) fn hmac_sha256_verify(key: &[u8], msg: &[u8], tag: &[u8]) -> (r: bool)
    ensures
        r == (tag@ == hmac_sha256(key@, msg@)),
{
    let mut mac = Hmac::<Sha256>::new_from_slice(key).expect("HMAC keys may have any length");
    mac.update(msg);
    mac.verify_slice(tag).is_ok()
}

/// Result of AES-128-CBC encryption of `pt` with PKCS#7 padding.
pub uninterp spec fn aes128_cbc_encrypt(key: Seq<u8>, iv: Seq<u8>, pt: Seq<u8>) -> Seq<u8>;

/// Result of AES-128-CBC decryption of `ct` and removal of its PKCS#7
/// padding; `None` when `ct` is not a whole number of blocks or the padding
/// is malformed.
pub uninterp spec fn aes128_cbc_decrypt(key: Seq<u8>, iv: Seq<u8>, ct: Seq<u8>) -> Option<
    Seq<u8>,
>;

/// Calls `cbc::Encryptor<aes::Aes128>::encrypt_padded_vec_mut::<Pkcs7>`.
/// PKCS#7 always adds 1 to 16 bytes, so the ciphertext is the next multiple
/// of 16 above the plaintext's length, and decrypting it with the same key and
/// IV gives the plaintext back.
#[verifier::external_body]
pub(crate) fn aes_cbc_encrypt(key: &[u8], iv: &[u8], pt: &[u8]) -> (r: Vec<u8>)
    requires
        key@.len() == 16,
        iv@.len() == 16,
        pt@.len() + 16 <= usize::MAX,
    ensures
        r@ == aes128_cbc_encrypt(key@, iv@, pt@),
        r@.len() == (pt@.len() / 16 + 1) * 16,
        aes128_cbc_decrypt(key@, iv@, r@) == Some(pt@),
{
    cbc::Encryptor::<aes::Aes128>::new_from_slices(key, iv).expect("16-byte key and IV")
        .encrypt_padded_vec_mut::<Pkcs7>(pt)
}

/// Calls `cbc::Decryptor<aes::Aes128>::decrypt_padded_vec_mut::<Pkcs7>`;
/// `None` when it reports an unpadding error.
#[verifier::external_body]
pub(crate) fn aes_cbc_decrypt(key: &[u8], iv: &[u8], ct: &[u8]) -> (r: Option<Vec<u8>>)
    requires
        key@.len() == 16,
        iv@.len() == 16,
    ensures
        match r {
            Some(p) => aes128_cbc_decrypt(key@, iv@, ct@) == Some(p@),
            None => aes128_cbc_decrypt(key@, iv@, ct@) == None::<Seq<u8>>,
        },
{
    cbc::Decryptor::<aes::Aes128>::new_from_slices(key, iv).expect("16-byte key and IV")
        .decrypt_padded_vec_mut::<Pkcs7>(ct).ok()
}

/// Result of encoding `data` with the URL-safe base64 alphabet, padded.
pub uninterp spec fn base64_url_encode(data: Seq<u8>) -> Seq<char>;

/// Result of decoding `text` with the URL-safe alphabet, canonical padding
/// required; `None` when `text` is not such an encoding.
pub uninterp spec fn base64_url_decode(text: Seq<char>) -> Option<Seq<u8>>;

/// Result of decoding `text` with the URL-safe alphabet, no padding allowed.
pub uninterp spec fn base64_url_nopad_decode(text: Seq<char>) -> Option<Seq<u8>>;

/// Calls `URL_SAFE.encode` (`base64` crate). Decoding the result with
/// `URL_SAFE` gives `data` back. The encoding is padded, so it has four
/// (ASCII) characters for every three bytes or part of three.
#[verifier::external_body]
pub(crate) fn base64_url_encode_bytes(data: &[u8]) -> (r: String)
    requires
        data@.len() <= usize::MAX / 2,
    ensures
        r@ == base64_url_encode(data@),
        base64_url_decode(r@) == Some(data@),
        r@.len() == 4 * ((data@.len() + 2) / 3),
{
    URL_SAFE.encode(data)
}

/// Calls `URL_SAFE.decode` (`base64` crate); `None` on a decoding error.
#[verifier::external_body]
pub(crate) fn base64_url_decode_text(text: &str) -> (r: Option<Vec<u8>>)
    ensures
        match r {
            Some(b) => base64_url_decode(text@) == Some(b@),
            None => base64_url_decode(text@) == None::<Seq<u8>>,
        },
{
    URL_SAFE.decode(text).ok()
}

/// Calls `URL_SAFE_NO_PAD.decode` (`base64` crate); `None` on a decoding error.
#[verifier::external_body]
pub(crate) fn base64_url_nopad_decode_text(text: &str) -> (r: Option<Vec<u8>>)
    ensures
        match r {
            Some(b) => base64_url_nopad_decode(text@) == Some(b@),
            None => base64_url_nopad_decode(text@) == None::<Seq<u8>>,
        },
{
    URL_SAFE_NO_PAD.decode(text).ok()
}

/// Calls `String::from_utf8`: succeeds exactly on valid UTF-8, and the
/// string holds the characters the bytes encode.
#[verifier::external_body]
pub(crate) fn string_from_utf8(bytes: Vec<u8>) -> (r: Option<String>)
    ensures
        r is Some <==> valid_utf8(bytes@),
        r matches Some(s) ==> s@ == decode_utf8(bytes@),
{
    String::from_utf8(bytes).ok()
}

/// Calls `hostname::get` and converts the name lossily to a `String`;
/// `None` when the OS reports an error. The name is the machine's: nothing
/// about it is stated.
#[verifier::external_body]
pub(crate) fn machine_hostname() -> Option<String> {
    match hostname::get() {
        Ok(name) => Some(name.to_string_lossy().into_owned()),
        Err(_) => None,
    }
}

/// Calls `whoami::username`: the current user's name. It depends on the
/// machine: nothing about it is stated.
#[verifier::external_body]
pub(crate) fn user_name() -> String {
    whoami::username()
}

} // verus!
