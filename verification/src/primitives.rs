//! The calls into outside crates that the storage logic makes: SHA-256,
//! AES-256-GCM, the operating system's random source, Base64, UTF-8 decoding
//! and the OS credential store. Each item here states only what the outside
//! crate's source or documentation shows; nothing below is proved.
use vstd::prelude::*;
use vstd::utf8::{decode_utf8, valid_utf8};

use aes_gcm::aead::{Aead, KeyInit, OsRng};
use aes_gcm::{Aes256Gcm, Nonce};
use base64::engine::general_purpose::STANDARD;
use base64::Engine;
use rand::RngCore;
use sha2::{Digest, Sha256};

verus! {

/// Largest plaintext, in bytes, that AES-GCM accepts (2^36).
pub const AES_GCM_P_MAX: u64 = 68719476736;

/// Size in bytes of the AES-GCM authentication tag appended to a ciphertext.
pub const AES_GCM_TAG_LEN: usize = 16;

/// The SHA-256 digest of `data`.
pub uninterp spec fn spec_sha256(data: Seq<u8>) -> Seq<u8>;

/// AES-256-GCM encryption of `plaintext` under `key` and `nonce`, without
/// associated data: the ciphertext followed by the tag.
pub uninterp spec fn spec_aes256gcm_encrypt(key: Seq<u8>, nonce: Seq<u8>, plaintext: Seq<u8>) -> Seq<u8>;

/// AES-256-GCM decryption of `ciphertext` (ciphertext followed by tag) under
/// `key` and `nonce`, without associated data; `None` when it does not
/// authenticate.
pub uninterp spec fn spec_aes256gcm_decrypt(key: Seq<u8>, nonce: Seq<u8>, ciphertext: Seq<u8>) -> Option<Seq<u8>>;

/// Standard Base64 (with padding) of `data`.
pub uninterp spec fn spec_base64_encode(data: Seq<u8>) -> Seq<char>;

/// Standard Base64 decoding of `text`: the bytes, or the decoder's error
/// message.
pub uninterp spec fn spec_base64_decode(text: Seq<char>) -> Result<Seq<u8>, Seq<char>>;

/// The message of the error `String::from_utf8` reports for invalid `bytes`.
pub uninterp spec fn spec_utf8_error_message(bytes: Seq<u8>) -> Seq<char>;

/// Whether the Base64 length computation of the `base64` crate fits in a
/// `usize` for an input of `n` bytes (it panics otherwise).
pub open spec fn base64_len_fits(n: int) -> bool {
    (n / 3) * 4 + (if n % 3 > 0 { 4int } else { 0int }) <= usize::MAX
}

/// `Sha256::digest` from `sha2`: the 32-byte SHA-256 digest of `data`,
/// a function of `data` alone.
#[verifier::external_body]
pub(crate) fn sha256(data: &[u8]) -> (r: [u8; 32])
    ensures
        r@ == spec_sha256(data@),
{
    Sha256::digest(data).into()
}

/// `Aes256Gcm::new` followed by `Aead::encrypt` from `aes-gcm` (no associated
/// data). The source returns an error exactly when the plaintext is longer
/// than 2^36 bytes, and that error prints as `aead::Error`; otherwise the
/// result is the ciphertext followed by the 16-byte tag. As for any AEAD, the
/// ciphertext decrypts under the same key and nonce to the plaintext.
#[verifier::external_body]
pub(crate) fn aes256gcm_encrypt(key: &[u8; 32], nonce: &[u8], plaintext: &[u8]) -> (r: Result<Vec<u8>, String>)
    requires
        nonce@.len() == 12,
    ensures
        r is Ok <==> plaintext@.len() <= AES_GCM_P_MAX,
        r matches Ok(c) ==> {
            &&& c@ == spec_aes256gcm_encrypt(key@, nonce@, plaintext@)
            &&& c@.len() == plaintext@.len() + AES_GCM_TAG_LEN
            &&& spec_aes256gcm_decrypt(key@, nonce@, c@) == Some(plaintext@)
        },
        r matches Err(m) ==> m@ == "aead::Error"@,
{
    let cipher = Aes256Gcm::new(key.into());
    cipher.encrypt(Nonce::from_slice(nonce), plaintext).map_err(|e| e.to_string())
}

/// `Aes256Gcm::new` followed by `Aead::decrypt` from `aes-gcm` (no associated
/// data): the plaintext, or `None` when the input is shorter than a tag or
/// does not authenticate.
#[verifier::external_body]
pub(crate) fn aes256gcm_decrypt(key: &[u8; 32], nonce: &[u8], ciphertext: &[u8]) -> (r: Option<Vec<u8>>)
    requires
        nonce@.len() == 12,
    ensures
        r matches Some(p) ==> spec_aes256gcm_decrypt(key@, nonce@, ciphertext@) == Some(p@),
        r is None ==> spec_aes256gcm_decrypt(key@, nonce@, ciphertext@) is None,
{
    let cipher = Aes256Gcm::new(key.into());
    cipher.decrypt(Nonce::from_slice(nonce), ciphertext).ok()
}

/// `OsRng::try_fill_bytes` (the `RngCore` trait of `rand`) on a 12-byte
/// buffer: twelve bytes from the operating system's random source, or the
/// message of the error it reports when it cannot supply them. Whether it
/// succeeds, and what the bytes are, rest on the machine: nothing is stated
/// of the result.
#[verifier::external_body]
pub(crate) fn random_nonce() -> (r: Result<[u8; 12], String>) {
    let mut nonce = [0u8; 12];
    match OsRng.try_fill_bytes(&mut nonce) {
        Ok(()) => Ok(nonce),
        Err(e) => Err(e.to_string()),
    }
}

/// `Engine::encode` of the `STANDARD` engine from `base64`: the padded
/// Base64 text of `data`. Decoding that text with the same engine gives back
/// `data`. The crate panics when the output length overflows a `usize`.
#[verifier::external_body]
pub(crate) fn base64_encode(data: &[u8]) -> (r: String)
    requires
        base64_len_fits(data@.len() as int),
    ensures
        r@ == spec_base64_encode(data@),
        spec_base64_decode(r@) is Ok && spec_base64_decode(r@)->Ok_0 == data@,
{
    STANDARD.encode(data)
}

/// `Engine::decode` of the `STANDARD` engine from `base64`: the decoded bytes,
/// or the decoding error's message.
#[verifier::external_body]
pub(crate) fn base64_decode(text: &str) -> (r: Result<Vec<u8>, String>)
    ensures
        r matches Ok(v) ==> spec_base64_decode(text@) is Ok && spec_base64_decode(text@)->Ok_0 == v@,
        r matches Err(m) ==> spec_base64_decode(text@) is Err && spec_base64_decode(text@)->Err_0 == m@,
{
    STANDARD.decode(text).map_err(|e| e.to_string())
}

/// `String::from_utf8`: succeeds exactly when `bytes` is valid UTF-8, and then
/// holds the characters those bytes encode; otherwise the error's message,
/// a function of the bytes.
#[verifier::external_body]
pub(crate) fn string_from_utf8(bytes: Vec<u8>) -> (r: Result<String, String>)
    ensures
        r is Ok <==> valid_utf8(bytes@),
        r matches Ok(s) ==> s@ == decode_utf8(bytes@),
        r matches Err(m) ==> m@ == spec_utf8_error_message(bytes@),
{
    String::from_utf8(bytes).map_err(|e| e.to_string())
}

/// The credential-store entry type of `keyring`.
#[verifier::external_type_specification]
#[verifier::external_body]
pub struct ExKeyringEntry(keyring::Entry);

/// `keyring::Entry::new(service, user)`. Whether it succeeds depends on the
/// platform's credential store, so nothing is stated of the result; the
/// error is passed on as its message.
#[verifier::external_body]
pub(crate) fn keyring_entry(service: &str, user: &str) -> (r: Result<keyring::Entry, String>) {
    keyring::Entry::new(service, user).map_err(|e| e.to_string())
}

/// `keyring::Entry::set_password`. Depends on the platform's credential
/// store: nothing is stated of the result.
#[verifier::external_body]
pub(crate) fn keyring_set_password(entry: &keyring::Entry, secret: &str) -> (r: Result<(), String>) {
    entry.set_password(secret).map_err(|e| e.to_string())
}

/// `keyring::Entry::get_password`. Depends on what the platform's credential
/// store holds: nothing is stated of the result.
#[verifier::external_body]
pub(crate) fn keyring_get_password(entry: &keyring::Entry) -> (r: Result<String, String>) {
    entry.get_password().map_err(|e| e.to_string())
}

/// `keyring::Entry::delete_credential`. Depends on the platform's credential
/// store: nothing is stated of the result.
#[verifier::external_body]
pub(crate) fn keyring_delete_credential(entry: &keyring::Entry) -> (r: Result<(), String>) {
    entry.delete_credential().map_err(|e| e.to_string())
}

} // verus!
