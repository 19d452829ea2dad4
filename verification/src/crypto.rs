//! Secure storage for `.ROBLOSECURITY` cookies.
//!
//! Two backends:
//! 1. **File-based AES-256-GCM**: the serialised account store, and each
//!    cookie on its own, are encrypted with a key derived from a master
//!    password by iterated SHA-256. Every blob is `nonce (12) || ciphertext`.
//! 2. **The OS credential store**: each cookie is kept under the service
//!    [`SERVICE_NAME`], keyed by the decimal Roblox user ID.
use vstd::prelude::*;
use vstd::utf8::{decode_utf8, encode_utf8, valid_utf8};

use crate::models::{Account, AccountStore};
use crate::text::{decimal, opt_string_text, opt_text, u64_to_decimal};
use crate::error::{spec_message, bytes_result, text_result, unit_result, CoreError, ErrorKind, ErrorView};
use crate::primitives::{
    keyring_delete_credential, keyring_entry, keyring_get_password, keyring_set_password,
    aes256gcm_decrypt, aes256gcm_encrypt, base64_encode, base64_decode, base64_len_fits,
    random_nonce, sha256, spec_aes256gcm_decrypt, spec_aes256gcm_encrypt, spec_base64_decode,
    spec_base64_encode, spec_sha256, spec_utf8_error_message, string_from_utf8, AES_GCM_P_MAX,
};

verus! {

broadcast use vstd::utf8::encode_utf8_valid_utf8, vstd::utf8::encode_utf8_decode_utf8;

/// Number of extra SHA-256 rounds applied when deriving a key.
pub const KDF_ROUNDS: usize = 100000;

/// Length of the random nonce that prefixes every encrypted blob.
pub const NONCE_LEN: usize = 12;

/// `n` further applications of SHA-256 to `seed`.
pub open spec fn sha256_iterated(seed: Seq<u8>, n: nat) -> Seq<u8>
    decreases n,
{
    if n == 0 {
        seed
    } else {
        spec_sha256(sha256_iterated(seed, (n - 1) as nat))
    }
}

/// The 256-bit key derived from a password: SHA-256 of its UTF-8 bytes,
/// then [`KDF_ROUNDS`] more rounds of SHA-256.
pub open spec fn spec_derive_key(password: Seq<char>) -> Seq<u8> {
    sha256_iterated(spec_sha256(encode_utf8(password)), KDF_ROUNDS as nat)
}

/// Derive a 256-bit key from a password using iterated SHA-256.
fn derive_key(password: &str) -> (key: [u8; 32])
    ensures
        key@ == spec_derive_key(password@),
{
    let mut hash = sha256(password.as_bytes());
    let ghost seed = hash@;
    let mut i: usize = 0;
    while i < KDF_ROUNDS
        invariant
            i <= KDF_ROUNDS,
            seed == spec_sha256(encode_utf8(password@)),
            hash@ == sha256_iterated(seed, i as nat),
        decreases KDF_ROUNDS - i,
    {
        hash = sha256(hash.as_slice());
        i = i + 1;
    }
    hash
}

/// Bytes the payload of an encrypted blob occupies beyond the plaintext:
/// the nonce and the authentication tag.
pub open spec fn blob_overhead() -> int {
    28
}

/// `nonce || ciphertext` for `plaintext` under the key of `password`.
pub open spec fn spec_seal(password: Seq<char>, nonce: Seq<u8>, plaintext: Seq<u8>) -> Seq<u8> {
    nonce + spec_aes256gcm_encrypt(spec_derive_key(password), nonce, plaintext)
}

/// Opening a `nonce || ciphertext` blob: the plaintext, or `None` when the
/// blob is shorter than 13 bytes or does not authenticate.
pub open spec fn spec_open(password: Seq<char>, data: Seq<u8>) -> Option<Seq<u8>> {
    if data.len() < 13 {
        None
    } else {
        spec_aes256gcm_decrypt(
            spec_derive_key(password),
            data.subrange(0, 12),
            data.subrange(12, data.len() as int),
        )
    }
}

/// What sealing `plaintext` under `password` gives, for each outcome of
/// asking the random source for a nonce: its error is passed on, and with a
/// nonce the blob is `nonce || ciphertext` unless the plaintext is longer
/// than AES-GCM accepts.
pub open spec fn spec_seal_outcome(
    password: Seq<char>,
    plaintext: Seq<u8>,
    nonce: Result<Seq<u8>, Seq<char>>,
) -> Result<Seq<u8>, Seq<char>> {
    match nonce {
        Err(m) => Err(m),
        Ok(n) => if plaintext.len() <= AES_GCM_P_MAX {
            Ok(spec_seal(password, n, plaintext))
        } else {
            Err("aead::Error"@)
        },
    }
}

/// A nonce outcome the random source can give: twelve bytes, or an error.
pub open spec fn is_nonce_outcome(nonce: Result<Seq<u8>, Seq<char>>) -> bool {
    nonce matches Ok(n) ==> n.len() == 12
}

/// A raw byte result as the contracts see it.
pub open spec fn raw_bytes_result(r: Result<Vec<u8>, String>) -> Result<Seq<u8>, Seq<char>> {
    match r {
        Ok(v) => Ok(v@),
        Err(m) => Err(m@),
    }
}

/// A nonce outcome as the contracts see it.
pub open spec fn nonce_view(nonce: Result<[u8; 12], String>) -> Result<Seq<u8>, Seq<char>> {
    match nonce {
        Ok(n) => Ok(n@),
        Err(m) => Err(m@),
    }
}

/// Seal `plaintext` under `password` with the given outcome of asking the
/// random source for a nonce: its error is passed on; with a nonce the
/// result is `nonce || ciphertext`, unless the plaintext is longer than
/// AES-GCM accepts.
pub fn seal_with_nonce(plaintext: &[u8], password: &str, nonce: Result<[u8; 12], String>) -> (r: Result<
    Vec<u8>,
    String,
>)
    ensures
        raw_bytes_result(r) == spec_seal_outcome(password@, plaintext@, nonce_view(nonce)),
        r matches Ok(out) ==> {
            &&& out@.len() == plaintext@.len() + blob_overhead()
            &&& out@ == spec_seal(password@, out@.subrange(0, 12), plaintext@)
            &&& spec_open(password@, out@) == Some(plaintext@)
        },
{
    let nonce = match nonce {
        Ok(n) => n,
        Err(m) => {
            return Err(m);
        },
    };
    let key = derive_key(password);
    let ciphertext = match aes256gcm_encrypt(&key, nonce.as_slice(), plaintext) {
        Ok(c) => c,
        Err(m) => {
            return Err(m);
        },
    };
    let mut out: Vec<u8> = Vec::new();
    out.extend_from_slice(nonce.as_slice());
    out.extend_from_slice(ciphertext.as_slice());
    proof {
        assert(out@ =~= nonce@ + ciphertext@);
        assert(out@.subrange(0, 12) =~= nonce@);
        assert(out@.subrange(12, out@.len() as int) =~= ciphertext@);
    }
    Ok(out)
}

/// Encrypt `plaintext` under `password` with a fresh random nonce.
fn seal(plaintext: &[u8], password: &str) -> (r: Result<Vec<u8>, String>)
    ensures
        exists|nonce: Result<Seq<u8>, Seq<char>>|
            is_nonce_outcome(nonce) && raw_bytes_result(r) == #[trigger] spec_seal_outcome(
                password@,
                plaintext@,
                nonce,
            ),
        r is Ok ==> plaintext@.len() <= AES_GCM_P_MAX,
        r matches Ok(out) ==> {
            &&& out@.len() == plaintext@.len() + blob_overhead()
            &&& out@ == spec_seal(password@, out@.subrange(0, 12), plaintext@)
            &&& spec_open(password@, out@) == Some(plaintext@)
        },
{
    let nonce = random_nonce();
    let r = seal_with_nonce(plaintext, password, nonce);
    assert(is_nonce_outcome(nonce_view(nonce)));
    r
}

/// What [`encrypt_store`] gives for each outcome of asking the random source
/// for a nonce.
pub open spec fn spec_encrypt_store(
    plaintext: Seq<u8>,
    password: Seq<char>,
    nonce: Result<Seq<u8>, Seq<char>>,
) -> Result<Seq<u8>, ErrorView> {
    match spec_seal_outcome(password, plaintext, nonce) {
        Ok(blob) => Ok(blob),
        Err(m) => Err((ErrorKind::Crypto, m)),
    }
}

/// What [`decrypt_store`] gives for `data` under `password`.
pub open spec fn spec_decrypt_store(data: Seq<u8>, password: Seq<char>) -> Result<Seq<u8>, ErrorView> {
    if data.len() < 13 {
        Err((ErrorKind::Crypto, "encrypted data too short"@))
    } else {
        match spec_open(password, data) {
            Some(p) => Ok(p),
            None => Err(
                (
                    ErrorKind::Crypto,
                    "could not decrypt the account store: wrong master password, or the file is corrupted"@,
                ),
            ),
        }
    }
}

/// Encrypt the serialised account store to `nonce (12) || ciphertext`.
///
/// Fails when the operating system cannot supply a random nonce, or when the
/// plaintext is longer than AES-GCM accepts. What it returns decrypts, under
/// the same password, to the plaintext.
pub fn encrypt_store(plaintext: &[u8], password: &str) -> (r: Result<Vec<u8>, CoreError>)
    ensures
        exists|nonce: Result<Seq<u8>, Seq<char>>|
            is_nonce_outcome(nonce) && bytes_result(r) == #[trigger] spec_encrypt_store(
                plaintext@,
                password@,
                nonce,
            ),
        r is Ok ==> plaintext@.len() <= AES_GCM_P_MAX,
        r matches Err(e) ==> e@.0 == ErrorKind::Crypto,
        r matches Ok(out) ==> {
            &&& out@.len() == plaintext@.len() + blob_overhead()
            &&& out@ == spec_seal(password@, out@.subrange(0, 12), plaintext@)
        },
        r matches Ok(out) ==> spec_decrypt_store(out@, password@) is Ok && spec_decrypt_store(
            out@,
            password@,
        )->Ok_0 == plaintext@,
{
    let sealed = seal(plaintext, password);
    let ghost raw = raw_bytes_result(sealed);
    let r = match sealed {
        Ok(out) => Ok(out),
        Err(m) => Err(CoreError::Crypto(m)),
    };
    proof {
        let nonce = choose|nonce: Result<Seq<u8>, Seq<char>>|
            is_nonce_outcome(nonce) && raw == #[trigger] spec_seal_outcome(
                password@,
                plaintext@,
                nonce,
            );
        assert(bytes_result(r) == spec_encrypt_store(plaintext@, password@, nonce));
    }
    r
}

/// Decrypt bytes produced by [`encrypt_store`] back into the serialised store.
pub fn decrypt_store(data: &[u8], password: &str) -> (r: Result<Vec<u8>, CoreError>)
    ensures
        bytes_result(r) == spec_decrypt_store(data@, password@),
{
    if data.len() < 13 {
        return Err(CoreError::Crypto(String::from_str("encrypted data too short")));
    }
    let (nonce, ciphertext) = data.split_at(NONCE_LEN);
    let key = derive_key(password);
    match aes256gcm_decrypt(&key, nonce, ciphertext) {
        Some(p) => Ok(p),
        // A GCM authentication failure means the key is wrong OR the
        // ciphertext was damaged; the tag cannot tell which, so the message
        // must not blame the password outright.
        None => Err(
            CoreError::Crypto(
                String::from_str(
                    "could not decrypt the account store: wrong master password, or the file is corrupted",
                ),
            ),
        ),
    }
}

/// Which copy of the account store a load ended up with.
#[derive(Clone, Copy, Debug, PartialEq, Eq, Structural)]
pub enum LoadSource {
    /// The primary file.
    Primary,
    /// The `.bak` copy, after the primary failed; the primary should be
    /// restored from it.
    Backup,
}

/// The outcome of loading the account store from the two copies' results.
pub open spec fn spec_choose_loaded_store<S>(
    primary: Result<S, CoreError>,
    backup: Option<Result<S, CoreError>>,
) -> Result<(S, LoadSource), CoreError> {
    match primary {
        Ok(s) => Ok((s, LoadSource::Primary)),
        Err(e) => match backup {
            Some(Ok(s)) => Ok((s, LoadSource::Backup)),
            _ => Err(e),
        },
    }
}

/// Decide the outcome of loading the account store, given how the primary
/// file fared and, when it failed, how the backup fared (`None` when the
/// backup could not be read).
///
/// The primary wins when it loads. Otherwise a backup that loads is used
/// (and the primary should be healed from it). Only when both fail is the
/// primary's error returned, since a wrong password is then the likely
/// explanation.
pub fn choose_loaded_store<S>(
    primary: Result<S, CoreError>,
    backup: Option<Result<S, CoreError>>,
) -> (r: Result<(S, LoadSource), CoreError>)
    ensures
        r == spec_choose_loaded_store(primary, backup),
{
    match primary {
        Ok(s) => Ok((s, LoadSource::Primary)),
        Err(primary_err) => match backup {
            Some(Ok(s)) => Ok((s, LoadSource::Backup)),
            _ => Err(primary_err),
        },
    }
}

/// What [`decrypt_cookie`] gives for an encoded cookie under `password`.
pub open spec fn spec_decrypt_cookie(encoded: Seq<char>, password: Seq<char>) -> Result<Seq<char>, ErrorView> {
    match spec_base64_decode(encoded) {
        Err(m) => Err((ErrorKind::Crypto, m)),
        Ok(data) => if data.len() < 13 {
            Err((ErrorKind::Crypto, "encrypted cookie too short"@))
        } else {
            match spec_open(password, data) {
                None => Err((ErrorKind::Crypto, "cookie decryption failed"@)),
                Some(bytes) => if valid_utf8(bytes) {
                    Ok(decode_utf8(bytes))
                } else {
                    Err((ErrorKind::Crypto, spec_utf8_error_message(bytes)))
                },
            }
        },
    }
}

/// The encrypted form of a cookie: Base64 of `nonce || ciphertext`.
pub open spec fn is_encrypted_cookie(encoded: Seq<char>, cookie: Seq<char>, password: Seq<char>) -> bool {
    exists|nonce: Seq<u8>|
        nonce.len() == 12 && encoded == spec_base64_encode(
            #[trigger] spec_seal(password, nonce, encode_utf8(cookie)),
        )
}

/// What [`encrypt_cookie`] gives for each outcome of asking the random
/// source for a nonce: Base64 of the sealed UTF-8 bytes of the cookie.
pub open spec fn spec_encrypt_cookie(
    cookie: Seq<char>,
    password: Seq<char>,
    nonce: Result<Seq<u8>, Seq<char>>,
) -> Result<Seq<char>, ErrorView> {
    match spec_seal_outcome(password, encode_utf8(cookie), nonce) {
        Ok(blob) => Ok(spec_base64_encode(blob)),
        Err(m) => Err((ErrorKind::Crypto, m)),
    }
}

/// Encrypt a single cookie string with the given outcome of asking the
/// random source for a nonce, returning Base64 of `nonce || ciphertext`.
///
/// Fails when there is no nonce, or when the cookie is longer than AES-GCM
/// accepts. What it returns is Base64 of a blob of 12 + cookie bytes + 16
/// bytes, which decrypts, under the same password, to the cookie.
pub fn encrypt_cookie_with_nonce(cookie: &str, password: &str, nonce: Result<[u8; 12], String>) -> (r:
    Result<String, CoreError>)
    requires
        encode_utf8(cookie@).len() <= AES_GCM_P_MAX ==> base64_len_fits(
            encode_utf8(cookie@).len() + blob_overhead(),
        ),
    ensures
        text_result(r) == spec_encrypt_cookie(cookie@, password@, nonce_view(nonce)),
        r matches Ok(enc) ==> is_encrypted_cookie(enc@, cookie@, password@),
        r matches Ok(enc) ==> spec_base64_decode(enc@) is Ok && spec_base64_decode(enc@)->Ok_0.len()
            == encode_utf8(cookie@).len() + blob_overhead(),
        r matches Ok(enc) ==> spec_decrypt_cookie(enc@, password@) is Ok && spec_decrypt_cookie(
            enc@,
            password@,
        )->Ok_0 == cookie@,
{
    let bytes = cookie.as_bytes();
    let sealed = seal_with_nonce(bytes, password, nonce);
    match sealed {
        Ok(blob) => {
            let encoded = base64_encode(blob.as_slice());
            proof {
                let n = blob@.subrange(0, 12);
                assert(spec_seal(password@, n, encode_utf8(cookie@)) == blob@);
                assert(spec_base64_decode(encoded@) == Ok::<Seq<u8>, Seq<char>>(blob@));
            }
            Ok(encoded)
        },
        Err(m) => Err(CoreError::Crypto(m)),
    }
}

/// Encrypt a single cookie string with a fresh random nonce, returning
/// Base64 of `nonce || ciphertext`.
///
/// Fails when the operating system cannot supply a random nonce, or when the
/// cookie is longer than AES-GCM accepts. What it returns is Base64 of a blob
/// of 12 + cookie bytes + 16 bytes, which decrypts, under the same password,
/// to the cookie.
pub fn encrypt_cookie(cookie: &str, password: &str) -> (r: Result<String, CoreError>)
    requires
        encode_utf8(cookie@).len() <= AES_GCM_P_MAX ==> base64_len_fits(
            encode_utf8(cookie@).len() + blob_overhead(),
        ),
    ensures
        exists|nonce: Result<Seq<u8>, Seq<char>>|
            is_nonce_outcome(nonce) && text_result(r) == #[trigger] spec_encrypt_cookie(
                cookie@,
                password@,
                nonce,
            ),
        r is Ok ==> encode_utf8(cookie@).len() <= AES_GCM_P_MAX,
        r matches Err(e) ==> e@.0 == ErrorKind::Crypto,
        r matches Ok(enc) ==> is_encrypted_cookie(enc@, cookie@, password@),
        r matches Ok(enc) ==> spec_base64_decode(enc@) is Ok && spec_base64_decode(enc@)->Ok_0.len()
            == encode_utf8(cookie@).len() + blob_overhead(),
        r matches Ok(enc) ==> spec_decrypt_cookie(enc@, password@) is Ok && spec_decrypt_cookie(
            enc@,
            password@,
        )->Ok_0 == cookie@,
{
    let nonce = random_nonce();
    let r = encrypt_cookie_with_nonce(cookie, password, nonce);
    assert(is_nonce_outcome(nonce_view(nonce)));
    r
}

/// Decrypt a Base64-encoded cookie blob.
pub fn decrypt_cookie(encoded: &str, password: &str) -> (r: Result<String, CoreError>)
    ensures
        text_result(r) == spec_decrypt_cookie(encoded@, password@),
{
    let data = match base64_decode(encoded) {
        Ok(d) => d,
        Err(m) => return Err(CoreError::Crypto(m)),
    };
    if data.len() < 13 {
        return Err(CoreError::Crypto(String::from_str("encrypted cookie too short")));
    }
    let (nonce, ciphertext) = data.as_slice().split_at(NONCE_LEN);
    let key = derive_key(password);
    let plaintext = match aes256gcm_decrypt(&key, nonce, ciphertext) {
        Some(p) => p,
        None => return Err(CoreError::Crypto(String::from_str("cookie decryption failed"))),
    };
    match string_from_utf8(plaintext) {
        Ok(s) => Ok(s),
        Err(m) => Err(CoreError::Crypto(m)),
    }
}

// ---------------------------------------------------------------------------
// OS credential store backend
// ---------------------------------------------------------------------------

/// Service name under which cookies are kept in the OS credential store.
pub const SERVICE_NAME: &'static str = "RM-Rust";

/// The service and user under which an account's cookie is kept in the OS
/// credential store: [`SERVICE_NAME`] and the decimal user ID.
pub fn credential_target(user_id: u64) -> (r: (String, String))
    ensures
        r.0@ == SERVICE_NAME@,
        r.1@ == decimal(user_id as nat),
{
    (String::from_str(SERVICE_NAME), u64_to_decimal(user_id))
}

/// Store a single cookie in the OS credential store, under the decimal user ID.
///
/// Whether the store accepts it is up to the platform; any failure is a
/// [`CoreError::Keyring`].
pub fn credential_store(user_id: u64, cookie: &str) -> (r: Result<(), CoreError>)
    ensures
        r matches Err(e) ==> e@.0 == ErrorKind::Keyring,
{
    let (service, user) = credential_target(user_id);
    let entry = match keyring_entry(service.as_str(), user.as_str()) {
        Ok(e) => e,
        Err(m) => return Err(CoreError::Keyring(m)),
    };
    match keyring_set_password(&entry, cookie) {
        Ok(()) => Ok(()),
        Err(m) => Err(CoreError::Keyring(m)),
    }
}

/// Retrieve a cookie from the OS credential store.
///
/// What comes back depends on what the platform's store holds; any failure
/// is a [`CoreError::Keyring`].
pub fn credential_load(user_id: u64) -> (r: Result<String, CoreError>)
    ensures
        r matches Err(e) ==> e@.0 == ErrorKind::Keyring,
{
    let (service, user) = credential_target(user_id);
    let entry = match keyring_entry(service.as_str(), user.as_str()) {
        Ok(e) => e,
        Err(m) => return Err(CoreError::Keyring(m)),
    };
    match keyring_get_password(&entry) {
        Ok(c) => Ok(c),
        Err(m) => Err(CoreError::Keyring(m)),
    }
}

/// Delete a cookie from the OS credential store; any failure is a
/// [`CoreError::Keyring`].
pub fn credential_delete(user_id: u64) -> (r: Result<(), CoreError>)
    ensures
        r matches Err(e) ==> e@.0 == ErrorKind::Keyring,
{
    let (service, user) = credential_target(user_id);
    let entry = match keyring_entry(service.as_str(), user.as_str()) {
        Ok(e) => e,
        Err(m) => return Err(CoreError::Keyring(m)),
    };
    match keyring_delete_credential(&entry) {
        Ok(()) => Ok(()),
        Err(m) => Err(CoreError::Keyring(m)),
    }
}

/// Passphrase used to encrypt the account store when the user has not set a
/// master password (credential-manager mode).
///
/// This is obfuscation, not security: in credential-manager mode the store
/// file holds no secrets, but the roster (user IDs, aliases, groups, sort
/// order) must still be persisted or it is lost on exit.
pub const LOCAL_STORE_KEY: &'static str = "RM-Rust::local-store-v1";

/// The passphrase the store file is encrypted with for a master password.
pub open spec fn spec_effective_store_password(master_password: Seq<char>) -> Seq<char> {
    if master_password.len() == 0 {
        LOCAL_STORE_KEY@
    } else {
        master_password
    }
}

/// The passphrase the store file should actually be encrypted with: a set
/// master password as-is, an empty one replaced by [`LOCAL_STORE_KEY`] (so
/// that the save still happens).
pub fn effective_store_password(master_password: &str) -> (r: &str)
    ensures
        r@ == spec_effective_store_password(master_password@),
{
    if master_password.is_empty() {
        LOCAL_STORE_KEY
    } else {
        master_password
    }
}

/// The passphrase the store file is encrypted with is never empty, so the
/// roster is always saved, with or without a master password.
pub proof fn store_password_never_empty(master_password: Seq<char>)
    ensures
        spec_effective_store_password(master_password).len() > 0,
{
    reveal_strlit("RM-Rust::local-store-v1");
}

/// What reading a cookie from the store file gives.
pub open spec fn spec_cookie_from_file(encrypted_cookie: Option<Seq<char>>, password: Seq<char>) -> Result<Seq<char>, ErrorView> {
    match encrypted_cookie {
        Some(e) => spec_decrypt_cookie(e, password),
        None => Err((ErrorKind::Crypto, "no encrypted cookie stored for this account"@)),
    }
}

fn cookie_from_file(encrypted_cookie: Option<&str>, password: &str) -> (r: Result<String, CoreError>)
    ensures
        text_result(r) == spec_cookie_from_file(opt_text(encrypted_cookie), password@),
{
    match encrypted_cookie {
        Some(e) => decrypt_cookie(e, password),
        None => Err(CoreError::Crypto(String::from_str("no encrypted cookie stored for this account"))),
    }
}

/// The cookie chosen from the two backends' results: the preferred backend's
/// cookie if it has one, else the other's, else the preferred backend's
/// error.
pub open spec fn spec_pick_cookie(
    prefer_credential_manager: bool,
    keyring: Result<Seq<char>, ErrorView>,
    file: Result<Seq<char>, ErrorView>,
) -> Result<Seq<char>, ErrorView> {
    let primary = if prefer_credential_manager { keyring } else { file };
    let fallback = if prefer_credential_manager { file } else { keyring };
    match primary {
        Ok(c) => Ok(c),
        Err(e) => match fallback {
            Ok(c) => Ok(c),
            Err(_) => Err(e),
        },
    }
}

/// Combine what the credential store and the store file gave for one
/// account's cookie, following the configured preference (see
/// [`resolve_cookie`]).
pub fn pick_cookie(
    prefer_credential_manager: bool,
    keyring: Result<String, CoreError>,
    file: Result<String, CoreError>,
) -> (r: Result<String, CoreError>)
    ensures
        text_result(r) == spec_pick_cookie(
            prefer_credential_manager,
            text_result(keyring),
            text_result(file),
        ),
{
    let (primary, fallback) = if prefer_credential_manager {
        (keyring, file)
    } else {
        (file, keyring)
    };
    match primary {
        Ok(c) => Ok(c),
        Err(primary_err) => match fallback {
            Ok(c) => Ok(c),
            Err(_) => Err(primary_err),
        },
    }
}

/// Resolve an account's cookie from whichever backend actually holds it.
///
/// `prefer_credential_manager` sets the order, but **both** backends are
/// tried: the cookie is very often still intact in the other one after a
/// storage toggle without migration. On total failure the *preferred*
/// backend's error is returned. The other backend is only consulted when the
/// preferred one fails.
///
/// Whatever the credential store answers (a cookie, or a keyring error), the
/// result is [`spec_pick_cookie`] of that answer and of what the store file
/// gives.
pub fn resolve_cookie(
    user_id: u64,
    encrypted_cookie: Option<&str>,
    password: &str,
    prefer_credential_manager: bool,
) -> (r: Result<String, CoreError>)
    ensures
        exists|keyring: Result<Seq<char>, ErrorView>|
            {
                &&& (keyring matches Err(e) ==> e.0 == ErrorKind::Keyring)
                &&& text_result(r) == #[trigger] spec_pick_cookie(
                    prefer_credential_manager,
                    keyring,
                    spec_cookie_from_file(opt_text(encrypted_cookie), password@),
                )
            },
{
    let ghost file_spec = spec_cookie_from_file(opt_text(encrypted_cookie), password@);
    if prefer_credential_manager {
        let from_keyring = credential_load(user_id);
        let ghost kr = text_result(from_keyring);
        if from_keyring.is_ok() {
            assert(text_result(from_keyring) == spec_pick_cookie(true, kr, file_spec));
            return from_keyring;
        }
        let from_file = cookie_from_file(encrypted_cookie, password);
        let r = pick_cookie(true, from_keyring, from_file);
        assert(text_result(r) == spec_pick_cookie(true, kr, file_spec));
        r
    } else {
        let from_file = cookie_from_file(encrypted_cookie, password);
        if from_file.is_ok() {
            let ghost any: Result<Seq<char>, ErrorView> = Ok(Seq::empty());
            assert(text_result(from_file) == spec_pick_cookie(false, any, file_spec));
            return from_file;
        }
        let from_keyring = credential_load(user_id);
        let ghost kr = text_result(from_keyring);
        let r = pick_cookie(false, from_keyring, from_file);
        assert(text_result(r) == spec_pick_cookie(false, kr, file_spec));
        r
    }
}

// ---------------------------------------------------------------------------
// Moving cookies between the two backends
// ---------------------------------------------------------------------------

/// What became of one account during a migration between backends.
pub enum MigrationStep {
    /// Nothing to move (already in place, or the redundant copy was dropped).
    Skipped,
    /// The cookie was moved; counted in the migrated total.
    Moved,
    /// The account could not be migrated; reported with this message.
    Failed(Seq<char>),
}

/// `a` with its encrypted cookie replaced by `cookie`.
pub open spec fn with_cookie(a: Account, cookie: Option<String>) -> Account {
    Account { encrypted_cookie: cookie, ..a }
}

/// How many accounts were moved.
pub open spec fn count_moved(steps: Seq<MigrationStep>) -> nat
    decreases steps.len(),
{
    if steps.len() == 0 {
        0
    } else {
        count_moved(steps.drop_last()) + if steps.last() is Moved {
            1nat
        } else {
            0nat
        }
    }
}

/// Dropping the step just pushed gives back the earlier steps.
proof fn lemma_push_drop_last(steps: Seq<MigrationStep>, step: MigrationStep)
    ensures
        steps.push(step).drop_last() == steps,
        steps.push(step).last() == step,
{
    assert(steps.push(step).drop_last() =~= steps);
}

/// The `(user ID, message)` failures, in account order.
pub open spec fn failures_of(accounts: Seq<Account>, steps: Seq<MigrationStep>) -> Seq<(u64, Seq<char>)>
    decreases steps.len(),
{
    if steps.len() == 0 {
        Seq::empty()
    } else {
        let earlier = failures_of(accounts, steps.drop_last());
        match steps.last() {
            MigrationStep::Failed(m) => earlier.push((accounts[steps.len() - 1].user_id, m)),
            _ => earlier,
        }
    }
}

/// A failure list as the contracts see it.
pub open spec fn failure_list(v: Seq<(u64, String)>) -> Seq<(u64, Seq<char>)> {
    v.map_values(|p: (u64, String)| (p.0, p.1@))
}

/// One account's migration into the credential store, given whether the
/// credential store already held its cookie and what storing it returned.
///
/// An account already in the credential store just loses its file copy. An
/// account with no file copy, or whose file copy does not decrypt, fails.
/// Otherwise the decrypted cookie is stored, and the file copy is cleared only
/// when that store succeeded.
pub open spec fn cm_step(
    a: Account,
    b: Account,
    step: MigrationStep,
    password: Seq<char>,
    in_credential_store: bool,
    stored: Result<(), Seq<char>>,
) -> bool {
    if in_credential_store {
        b == with_cookie(a, None) && step == MigrationStep::Skipped
    } else {
        match a.encrypted_cookie {
            None => b == a && step == MigrationStep::Failed("no stored cookie to migrate"@),
            Some(enc) => match spec_decrypt_cookie(enc@, password) {
                Err(e) => b == a && step == MigrationStep::Failed(spec_message(e)),
                Ok(_) => match stored {
                    Ok(()) => b == with_cookie(a, None) && step == MigrationStep::Moved,
                    Err(m) => b == a && step == MigrationStep::Failed(
                        spec_message((ErrorKind::Keyring, m)),
                    ),
                },
            },
        }
    }
}

/// The whole migration into the credential store, given per-account
/// credential-store outcomes: `(already held, result of storing)`.
pub open spec fn cm_migration(
    before: Seq<Account>,
    after: Seq<Account>,
    moved: nat,
    failures: Seq<(u64, Seq<char>)>,
    password: Seq<char>,
    steps: Seq<MigrationStep>,
    outcomes: Seq<(bool, Result<(), Seq<char>>)>,
) -> bool {
    &&& after.len() == before.len()
    &&& steps.len() == before.len()
    &&& outcomes.len() == before.len()
    &&& forall|i: int|
        0 <= i < before.len() ==> #[trigger] cm_step(
            before[i],
            after[i],
            steps[i],
            password,
            outcomes[i].0,
            outcomes[i].1,
        )
    &&& moved == count_moved(steps)
    &&& failures == failures_of(before, steps)
}

/// Move every account's cookie out of the encrypted file field and into the
/// OS credential store. Returns `(migrated, failures)`.
///
/// The file copy is only cleared once the credential-store write has
/// succeeded (or the credential store already held the cookie), so a partial
/// failure leaves the account still readable rather than orphaned. Whatever
/// the credential store answers, the outcome is [`cm_migration`] of those
/// answers.
pub fn migrate_to_credential_manager(store: &mut AccountStore, password: &str) -> (r: (
    usize,
    Vec<(u64, String)>,
))
    ensures
        final(store).accounts@.len() == old(store).accounts@.len(),
        r.0 <= old(store).accounts@.len(),
        exists|steps: Seq<MigrationStep>, outcomes: Seq<(bool, Result<(), Seq<char>>)>|
            #[trigger] cm_migration(
                old(store).accounts@,
                final(store).accounts@,
                r.0 as nat,
                failure_list(r.1@),
                password@,
                steps,
                outcomes,
            ),
{
    let ghost orig = store.accounts@;
    let ghost mut steps: Seq<MigrationStep> = Seq::empty();
    let ghost mut outcomes: Seq<(bool, Result<(), Seq<char>>)> = Seq::empty();
    let mut moved: usize = 0;
    let mut failures: Vec<(u64, String)> = Vec::new();
    let n = store.accounts.len();
    let mut i: usize = 0;
    while i < n
        invariant
            n == orig.len(),
            store.accounts@.len() == n,
            i <= n,
            steps.len() == i,
            outcomes.len() == i,
            moved <= i,
            forall|j: int|
                0 <= j < i ==> #[trigger] cm_step(
                    orig[j],
                    store.accounts@[j],
                    steps[j],
                    password@,
                    outcomes[j].0,
                    outcomes[j].1,
                ),
            forall|j: int| i <= j < n ==> #[trigger] store.accounts@[j] == orig[j],
            moved == count_moved(steps),
            failure_list(failures@) == failures_of(orig, steps),
        decreases n - i,
    {
        let user_id = store.accounts[i].user_id;
        let ghost before_fail = failures@;
        let ghost step: MigrationStep;
        let ghost outcome: (bool, Result<(), Seq<char>>);
        let held = credential_load(user_id).is_ok();
        match cm_begin_step(&mut store.accounts[i], password, held) {
            Err(result) => {
                proof {
                    step = result@;
                    outcome = (held, Ok(()));
                }
                match result {
                    StepOutcome::Failed(msg) => {
                        failures.push((user_id, msg));
                    },
                    _ => {},
                }
            },
            Ok(plain) => {
                let stored = credential_store(user_id, plain.as_str());
                let ghost stored_view: Result<(), Seq<char>> = match unit_result(stored) {
                    Ok(()) => Ok(()),
                    Err(e) => Err(e.1),
                };
                let result = cm_finish_step(&mut store.accounts[i], stored);
                proof {
                    step = result@;
                    outcome = (false, stored_view);
                }
                match result {
                    StepOutcome::Moved => {
                        moved = moved + 1;
                    },
                    StepOutcome::Failed(msg) => {
                        failures.push((user_id, msg));
                    },
                    StepOutcome::Skipped => {},
                }
            },
        }
        proof {
            lemma_push_drop_last(steps, step);
            steps = steps.push(step);
            outcomes = outcomes.push(outcome);
            assert(failure_list(failures@) =~= failures_of(orig, steps)) by {
                assert(failure_list(before_fail) =~= failures_of(orig, steps.drop_last()));
            }
            assert(cm_step(
                orig[i as int],
                store.accounts@[i as int],
                steps[i as int],
                password@,
                outcomes[i as int].0,
                outcomes[i as int].1,
            ));
        }
        i = i + 1;
    }
    assert(cm_migration(
        old(store).accounts@,
        store.accounts@,
        moved as nat,
        failure_list(failures@),
        password@,
        steps,
        outcomes,
    ));
    let result = (moved, failures);
    assert(result.1@ == failures@);
    result
}

/// One account's migration into the store file, given what the credential
/// store returned for it (the cookie, or the error) and what the random source
/// gave when asked for a nonce.
///
/// An account that already has a file copy is left alone. One whose cookie
/// cannot be loaded, or cannot be encrypted, fails. Otherwise it gains a
/// freshly encrypted file copy of that cookie.
pub open spec fn file_step(
    a: Account,
    b: Account,
    step: MigrationStep,
    password: Seq<char>,
    loaded: Result<Seq<char>, ErrorView>,
    nonce: Result<Seq<u8>, Seq<char>>,
) -> bool {
    if a.encrypted_cookie is Some {
        b == a && step == MigrationStep::Skipped
    } else {
        match loaded {
            Err(e) => b == a && step == MigrationStep::Failed(spec_message(e)),
            Ok(cookie) => if encode_utf8(cookie).len() <= AES_GCM_P_MAX && !base64_len_fits(
                encode_utf8(cookie).len() + blob_overhead(),
            ) {
                b == a && step == MigrationStep::Failed(
                    spec_message((ErrorKind::Crypto, "cookie too large to encode"@)),
                )
            } else {
                match spec_encrypt_cookie(cookie, password, nonce) {
                    Err(e) => b == a && step == MigrationStep::Failed(spec_message(e)),
                    Ok(text) => {
                        &&& b.encrypted_cookie matches Some(enc) && enc@ == text
                            && spec_decrypt_cookie(enc@, password) == Ok::<Seq<char>, ErrorView>(
                            cookie,
                        )
                        &&& b == with_cookie(a, b.encrypted_cookie)
                        &&& step == MigrationStep::Moved
                    },
                }
            },
        }
    }
}

/// What became of one account, as the migration functions report it.
#[derive(Debug)]
pub enum StepOutcome {
    /// Nothing to move.
    Skipped,
    /// The cookie was moved.
    Moved,
    /// The account could not be migrated; reported with this message.
    Failed(String),
}

impl View for StepOutcome {
    type V = MigrationStep;

    open spec fn view(&self) -> MigrationStep {
        match self {
            StepOutcome::Skipped => MigrationStep::Skipped,
            StepOutcome::Moved => MigrationStep::Moved,
            StepOutcome::Failed(m) => MigrationStep::Failed(m@),
        }
    }
}

/// Move one account that has no file copy into the store file, given what
/// the credential store returned for its cookie and what the random source
/// gave for a nonce: a cookie that can be encrypted becomes the account's
/// file copy ([`StepOutcome::Moved`], after which the caller deletes the
/// credential); otherwise the account is left as it was and the failure is
/// reported.
pub fn file_account_step(
    account: &mut Account,
    password: &str,
    loaded: Result<String, CoreError>,
    nonce: Result<[u8; 12], String>,
) -> (r: StepOutcome)
    requires
        old(account).encrypted_cookie is None,
    ensures
        file_step(*old(account), *final(account), r@, password@, text_result(loaded), nonce_view(nonce)),
        r is Moved <==> final(account).encrypted_cookie is Some,
{
    let plain = match loaded {
        Ok(p) => p,
        Err(e) => {
            return StepOutcome::Failed(e.message());
        },
    };
    let len = plain.as_str().as_bytes().len();
    let fits = encrypted_cookie_fits(len);
    let encrypted = if len as u64 > AES_GCM_P_MAX || fits {
        encrypt_cookie_with_nonce(plain.as_str(), password, nonce)
    } else {
        Err(CoreError::Crypto(String::from_str("cookie too large to encode")))
    };
    match encrypted {
        Ok(enc) => {
            account.encrypted_cookie = Some(enc);
            StepOutcome::Moved
        },
        Err(e) => StepOutcome::Failed(e.message()),
    }
}

/// Begin moving one account into the credential store, given whether the
/// store already holds its cookie: if it does, the redundant file copy is
/// dropped and the account is skipped; otherwise the account is left as it
/// is and the decrypted cookie to store is returned, or the failure.
pub fn cm_begin_step(account: &mut Account, password: &str, held: bool) -> (r: Result<String, StepOutcome>)
    ensures
        held ==> *final(account) == with_cookie(*old(account), None),
        held ==> (r matches Err(o) && o@ == MigrationStep::Skipped),
        !held ==> *final(account) == *old(account),
        !held ==> match spec_cookie_to_store(*old(account), password@) {
            Ok(c) => (r matches Ok(s) && s@ == c),
            Err(m) => (r matches Err(o) && o@ == MigrationStep::Failed(m)),
        },
{
    if held {
        account.encrypted_cookie = None;
        return Err(StepOutcome::Skipped);
    }
    match cookie_to_store(account, password) {
        Ok(c) => Ok(c),
        Err(m) => Err(StepOutcome::Failed(m)),
    }
}

/// Finish moving one account into the credential store, given what storing
/// its decrypted cookie returned: on success its file copy is dropped;
/// otherwise the account is left as it was and the failure is reported.
pub fn cm_finish_step(account: &mut Account, stored: Result<(), CoreError>) -> (r: StepOutcome)
    ensures
        stored is Ok ==> *final(account) == with_cookie(*old(account), None) && r@ == MigrationStep::Moved,
        stored matches Err(e) ==> *final(account) == *old(account) && r@ == MigrationStep::Failed(
            spec_message(e@),
        ),
{
    match stored {
        Ok(()) => {
            account.encrypted_cookie = None;
            StepOutcome::Moved
        },
        Err(e) => StepOutcome::Failed(e.message()),
    }
}

/// The cookie to put into the credential store for an account: its file
/// copy decrypted, or the failure to report.
pub open spec fn spec_cookie_to_store(a: Account, password: Seq<char>) -> Result<Seq<char>, Seq<char>> {
    match a.encrypted_cookie {
        None => Err("no stored cookie to migrate"@),
        Some(enc) => match spec_decrypt_cookie(enc@, password) {
            Ok(c) => Ok(c),
            Err(e) => Err(spec_message(e)),
        },
    }
}

/// The decrypted cookie to move into the credential store for an account
/// that the store does not hold yet, or the failure message to report.
pub fn cookie_to_store(account: &Account, password: &str) -> (r: Result<String, String>)
    ensures
        match r {
            Ok(c) => spec_cookie_to_store(*account, password@) == Ok::<Seq<char>, Seq<char>>(c@),
            Err(m) => spec_cookie_to_store(*account, password@) == Err::<Seq<char>, Seq<char>>(m@),
        },
{
    match &account.encrypted_cookie {
        None => Err(String::from_str("no stored cookie to migrate")),
        Some(enc) => match decrypt_cookie(enc.as_str(), password) {
            Ok(c) => Ok(c),
            Err(e) => Err(e.message()),
        },
    }
}

/// Whether the Base64 form of an encrypted cookie of `len` plaintext bytes
/// fits in a `usize`.
fn encrypted_cookie_fits(len: usize) -> (r: bool)
    ensures
        r == base64_len_fits(len + blob_overhead()),
{
    if len > usize::MAX - 28 {
        return false;
    }
    let m = len + 28;
    let q = m / 3;
    let pad: usize = if m % 3 > 0 { 4 } else { 0 };
    q <= (usize::MAX - pad) / 4
}

/// The whole migration into the store file, given per-account outside
/// answers: `(what the credential store returned, the random source's
/// failure message if it could not supply a nonce)`.
pub open spec fn file_migration(
    before: Seq<Account>,
    after: Seq<Account>,
    moved: nat,
    failures: Seq<(u64, Seq<char>)>,
    password: Seq<char>,
    steps: Seq<MigrationStep>,
    answers: Seq<(Result<Seq<char>, ErrorView>, Result<Seq<u8>, Seq<char>>)>,
) -> bool {
    &&& after.len() == before.len()
    &&& steps.len() == before.len()
    &&& answers.len() == before.len()
    &&& forall|i: int|
        0 <= i < before.len() ==> #[trigger] file_step(
            before[i],
            after[i],
            steps[i],
            password,
            answers[i].0,
            answers[i].1,
        )
    &&& moved == count_moved(steps)
    &&& failures == failures_of(before, steps)
}

/// Inverse of [`migrate_to_credential_manager`]: pull every cookie out of the
/// OS credential store and re-encrypt it into the store file. Returns
/// `(migrated, failures)`.
///
/// Accounts that already have a file copy are skipped. A moved cookie's
/// credential-store entry is then deleted (a failed deletion is ignored).
/// Whatever the credential store and the random source answer, the outcome
/// is [`file_migration`] of those answers; in particular every new file copy
/// decrypts, under `password`, to the cookie that was loaded.
///
/// A cookie too large for its encrypted form to be Base64-encoded in a
/// `usize` (possible only on 32-bit targets) is reported as the failure
/// "cookie too large to encode" instead of aborting.
pub fn migrate_to_file(store: &mut AccountStore, password: &str) -> (r: (usize, Vec<(u64, String)>))
    ensures
        final(store).accounts@.len() == old(store).accounts@.len(),
        r.0 <= old(store).accounts@.len(),
        exists|
            steps: Seq<MigrationStep>,
            answers: Seq<(Result<Seq<char>, ErrorView>, Result<Seq<u8>, Seq<char>>)>,
        |
            #[trigger] file_migration(
                old(store).accounts@,
                final(store).accounts@,
                r.0 as nat,
                failure_list(r.1@),
                password@,
                steps,
                answers,
            ),
{
    let ghost orig = store.accounts@;
    let ghost mut steps: Seq<MigrationStep> = Seq::empty();
    let ghost mut answers: Seq<(Result<Seq<char>, ErrorView>, Result<Seq<u8>, Seq<char>>)> = Seq::empty();
    let mut moved: usize = 0;
    let mut failures: Vec<(u64, String)> = Vec::new();
    let n = store.accounts.len();
    let mut i: usize = 0;
    while i < n
        invariant
            n == orig.len(),
            store.accounts@.len() == n,
            i <= n,
            steps.len() == i,
            answers.len() == i,
            moved <= i,
            forall|j: int|
                0 <= j < i ==> #[trigger] file_step(
                    orig[j],
                    store.accounts@[j],
                    steps[j],
                    password@,
                    answers[j].0,
                    answers[j].1,
                ),
            forall|j: int| i <= j < n ==> #[trigger] store.accounts@[j] == orig[j],
            moved == count_moved(steps),
            failure_list(failures@) == failures_of(orig, steps),
        decreases n - i,
    {
        let user_id = store.accounts[i].user_id;
        let ghost before_fail = failures@;
        let ghost step: MigrationStep;
        let ghost answer: (Result<Seq<char>, ErrorView>, Result<Seq<u8>, Seq<char>>);
        if store.accounts[i].encrypted_cookie.is_some() {
            proof {
                step = MigrationStep::Skipped;
                answer = (Ok(Seq::empty()), Err(Seq::empty()));
            }
        } else {
            let loaded = credential_load(user_id);
            let nonce = random_nonce();
            let ghost answered = (text_result(loaded), nonce_view(nonce));
            let outcome = file_account_step(&mut store.accounts[i], password, loaded, nonce);
            proof {
                step = outcome@;
                answer = answered;
            }
            match outcome {
                StepOutcome::Moved => {
                    let _ = credential_delete(user_id);
                    moved = moved + 1;
                },
                StepOutcome::Failed(msg) => {
                    failures.push((user_id, msg));
                },
                StepOutcome::Skipped => {},
            }
        }
        proof {
            lemma_push_drop_last(steps, step);
            steps = steps.push(step);
            answers = answers.push(answer);
            assert(failure_list(failures@) =~= failures_of(orig, steps)) by {
                assert(failure_list(before_fail) =~= failures_of(orig, steps.drop_last()));
            }
            assert(file_step(
                orig[i as int],
                store.accounts@[i as int],
                steps[i as int],
                password@,
                answers[i as int].0,
                answers[i as int].1,
            ));
        }
        i = i + 1;
    }
    assert(file_migration(
        old(store).accounts@,
        store.accounts@,
        moved as nat,
        failure_list(failures@),
        password@,
        steps,
        answers,
    ));
    let result = (moved, failures);
    assert(result.1@ == failures@);
    result
}

// ---------------------------------------------------------------------------
// Laws across reading and migrating cookies
// ---------------------------------------------------------------------------

/// A cookie that decrypts from the store file is found whichever backend is
/// preferred and whatever the credential store answers: a cookie stranded in
/// the non-preferred backend is still read.
pub proof fn file_cookie_is_always_found(
    encrypted_cookie: Seq<char>,
    cookie: Seq<char>,
    password: Seq<char>,
    prefer_credential_manager: bool,
    keyring: Result<Seq<char>, ErrorView>,
)
    requires
        spec_decrypt_cookie(encrypted_cookie, password) == Ok::<Seq<char>, ErrorView>(cookie),
        prefer_credential_manager ==> keyring is Err,
    ensures
        spec_pick_cookie(
            prefer_credential_manager,
            keyring,
            spec_cookie_from_file(Some(encrypted_cookie), password),
        ) == Ok::<Seq<char>, ErrorView>(cookie),
{
}

/// After an account's cookie has been moved into the store file, reading
/// that account's cookie from the file gives the cookie that was moved.
pub proof fn moved_cookie_reads_back(
    before: Account,
    after: Account,
    password: Seq<char>,
    cookie: Seq<char>,
    nonce: Result<Seq<u8>, Seq<char>>,
    keyring: Result<Seq<char>, ErrorView>,
)
    requires
        file_step(before, after, MigrationStep::Moved, password, Ok::<Seq<char>, ErrorView>(cookie), nonce),
    ensures
        spec_pick_cookie(
            false,
            keyring,
            spec_cookie_from_file(opt_string_text(after.encrypted_cookie), password),
        ) == Ok::<Seq<char>, ErrorView>(cookie),
{
}

/// How many accounts were skipped.
pub open spec fn count_skipped(steps: Seq<MigrationStep>) -> nat
    decreases steps.len(),
{
    if steps.len() == 0 {
        0
    } else {
        count_skipped(steps.drop_last()) + if steps.last() is Skipped {
            1nat
        } else {
            0nat
        }
    }
}

/// Every account of a migration is moved, skipped or reported as a failure,
/// exactly once.
pub proof fn every_account_is_accounted_for(accounts: Seq<Account>, steps: Seq<MigrationStep>)
    requires
        steps.len() <= accounts.len(),
    ensures
        count_moved(steps) + count_skipped(steps) + failures_of(accounts, steps).len() == steps.len(),
    decreases steps.len(),
{
    if steps.len() > 0 {
        every_account_is_accounted_for(accounts, steps.drop_last());
    }
}

/// In a migration into the credential store, an account loses its file copy
/// only when the credential store holds its cookie (it already did, or storing
/// it succeeded), an account reported as a failure is left exactly as it
/// was (no account ends up with neither copy), no field but the file copy
/// ever changes, and every account is moved, skipped or reported.
pub proof fn file_copy_cleared_only_when_held(
    before: Seq<Account>,
    after: Seq<Account>,
    moved: nat,
    failures: Seq<(u64, Seq<char>)>,
    password: Seq<char>,
    steps: Seq<MigrationStep>,
    outcomes: Seq<(bool, Result<(), Seq<char>>)>,
    i: int,
)
    requires
        cm_migration(before, after, moved, failures, password, steps, outcomes),
        0 <= i < before.len(),
    ensures
        before[i].encrypted_cookie is Some && after[i].encrypted_cookie is None ==> outcomes[i].0
            || outcomes[i].1 is Ok,
        steps[i] is Failed ==> after[i] == before[i],
        after[i] == with_cookie(before[i], after[i].encrypted_cookie),
        moved + count_skipped(steps) + failures.len() == before.len(),
{
    assert(cm_step(before[i], after[i], steps[i], password, outcomes[i].0, outcomes[i].1));
    every_account_is_accounted_for(before, steps);
}

/// In a migration into the store file, an account that already had a file
/// copy is untouched, an account reported as a failure is left exactly as it
/// was, no field but the file copy ever changes, and the moved and failed
/// accounts are exactly those that had no file copy.
pub proof fn file_migration_touches_only_missing_copies(
    before: Seq<Account>,
    after: Seq<Account>,
    moved: nat,
    failures: Seq<(u64, Seq<char>)>,
    password: Seq<char>,
    steps: Seq<MigrationStep>,
    answers: Seq<(Result<Seq<char>, ErrorView>, Result<Seq<u8>, Seq<char>>)>,
    i: int,
)
    requires
        file_migration(before, after, moved, failures, password, steps, answers),
        0 <= i < before.len(),
    ensures
        before[i].encrypted_cookie is Some ==> after[i] == before[i] && steps[i] is Skipped,
        before[i].encrypted_cookie is None ==> !(steps[i] is Skipped),
        steps[i] is Failed ==> after[i] == before[i],
        after[i] == with_cookie(before[i], after[i].encrypted_cookie),
        moved + count_skipped(steps) + failures.len() == before.len(),
{
    assert(file_step(before[i], after[i], steps[i], password, answers[i].0, answers[i].1));
    every_account_is_accounted_for(before, steps);
}

/// When the account store does not decrypt (wrong password, or damaged data
/// of a plausible length), the error never blames the password alone.
pub proof fn failed_store_decryption_names_both_causes(data: Seq<u8>, password: Seq<char>)
    requires
        data.len() >= 13,
        spec_open(password, data) is None,
    ensures
        spec_decrypt_store(data, password) == Err::<Seq<u8>, ErrorView>(
            (
                ErrorKind::Crypto,
                "could not decrypt the account store: wrong master password, or the file is corrupted"@,
            ),
        ),
{
}

/// After the cookies were migrated for a storage-backend toggle: whether the
/// new backend may be committed. It is only when no account failed to move,
/// so that no cookie is stranded in the backend being left.
pub fn backend_toggle_commits(failures: &Vec<(u64, String)>) -> (b: bool)
    ensures
        b == (failures@.len() == 0),
{
    failures.len() == 0
}

/// A migration that reported no failures has no failed step.
proof fn lemma_no_failed_step(accounts: Seq<Account>, steps: Seq<MigrationStep>)
    requires
        steps.len() <= accounts.len(),
        failures_of(accounts, steps).len() == 0,
    ensures
        forall|i: int| 0 <= i < steps.len() ==> !(#[trigger] steps[i] is Failed),
    decreases steps.len(),
{
    if steps.len() > 0 {
        let earlier = failures_of(accounts, steps.drop_last());
        if steps.last() is Failed {
            assert(failures_of(accounts, steps).len() == earlier.len() + 1);
        }
        lemma_no_failed_step(accounts, steps.drop_last());
        assert forall|i: int| 0 <= i < steps.len() implies !(#[trigger] steps[i] is Failed) by {
            if i < steps.len() - 1 {
                assert(steps.drop_last()[i] == steps[i]);
            }
        }
    }
}

/// A switch to the credential store that commits (no account failed) leaves
/// no account with a file copy, and every account's cookie in the
/// credential store: it was there already, or storing it succeeded.
pub proof fn committed_switch_to_credential_store_holds_every_cookie(
    before: Seq<Account>,
    after: Seq<Account>,
    moved: nat,
    failures: Seq<(u64, Seq<char>)>,
    password: Seq<char>,
    steps: Seq<MigrationStep>,
    outcomes: Seq<(bool, Result<(), Seq<char>>)>,
    i: int,
)
    requires
        cm_migration(before, after, moved, failures, password, steps, outcomes),
        failures.len() == 0,
        0 <= i < before.len(),
    ensures
        after[i].encrypted_cookie is None,
        outcomes[i].0 || outcomes[i].1 is Ok,
{
    lemma_no_failed_step(before, steps);
    assert(!(steps[i] is Failed));
    assert(cm_step(before[i], after[i], steps[i], password, outcomes[i].0, outcomes[i].1));
}

/// A switch to the store file that commits (no account failed) leaves every
/// account with a file copy; a moved one decrypts, under the password, to
/// the cookie the credential store gave.
pub proof fn committed_switch_to_file_keeps_every_cookie(
    before: Seq<Account>,
    after: Seq<Account>,
    moved: nat,
    failures: Seq<(u64, Seq<char>)>,
    password: Seq<char>,
    steps: Seq<MigrationStep>,
    answers: Seq<(Result<Seq<char>, ErrorView>, Result<Seq<u8>, Seq<char>>)>,
    i: int,
)
    requires
        file_migration(before, after, moved, failures, password, steps, answers),
        failures.len() == 0,
        0 <= i < before.len(),
    ensures
        after[i].encrypted_cookie is Some,
        steps[i] is Moved ==> answers[i].0 is Ok && spec_decrypt_cookie(
            after[i].encrypted_cookie->Some_0@,
            password,
        ) == Ok::<Seq<char>, ErrorView>(answers[i].0->Ok_0),
{
    lemma_no_failed_step(before, steps);
    assert(!(steps[i] is Failed));
    assert(file_step(before[i], after[i], steps[i], password, answers[i].0, answers[i].1));
}

/// Both backends are always tried, the preferred one first: when it gives
/// a cookie that cookie is the result; when it fails and the other gives a
/// cookie, the other's cookie is the result; only when both fail is the
/// result an error, and then it is the preferred backend's error.
pub proof fn failed_preference_falls_back(
    prefer_credential_manager: bool,
    keyring: Result<Seq<char>, ErrorView>,
    file: Result<Seq<char>, ErrorView>,
)
    ensures
        prefer_credential_manager && keyring is Ok ==> spec_pick_cookie(true, keyring, file) == keyring,
        !prefer_credential_manager && file is Ok ==> spec_pick_cookie(false, keyring, file) == file,
        prefer_credential_manager && keyring is Err && file is Ok ==> spec_pick_cookie(
            true,
            keyring,
            file,
        ) == file,
        !prefer_credential_manager && file is Err && keyring is Ok ==> spec_pick_cookie(
            false,
            keyring,
            file,
        ) == keyring,
        spec_pick_cookie(prefer_credential_manager, keyring, file) is Err ==> keyring is Err && file is Err
            && spec_pick_cookie(prefer_credential_manager, keyring, file) == (if prefer_credential_manager {
            keyring
        } else {
            file
        }),
{
}

/// Moving one account into the credential store: when the store did not
/// hold its cookie and its file copy decrypts, the account is moved exactly
/// when storing the cookie succeeded, and only then loses its file copy;
/// when storing failed it is reported and left exactly as it was. When the
/// store already held the cookie, only the redundant file copy is dropped.
pub proof fn cm_step_moves_decryptable_cookies(
    a: Account,
    b: Account,
    step: MigrationStep,
    password: Seq<char>,
    held: bool,
    stored: Result<(), Seq<char>>,
)
    requires
        cm_step(a, b, step, password, held, stored),
    ensures
        held ==> step is Skipped && b.encrypted_cookie is None && b == with_cookie(a, None),
        !held && a.encrypted_cookie is Some && spec_decrypt_cookie(
            a.encrypted_cookie->Some_0@,
            password,
        ) is Ok ==> {
            &&& (step is Moved <==> stored is Ok)
            &&& stored is Ok ==> b == with_cookie(a, None)
            &&& stored is Err ==> b == a && step is Failed
        },
        !held && step is Moved ==> stored is Ok,
        !held ==> !(step is Skipped),
{
}

/// Moving one account into the store file: an account without a file copy
/// whose cookie the credential store gave, that fits and for which a nonce
/// was drawn, is moved, and its new file copy decrypts, under the password,
/// to that cookie.
pub proof fn file_step_moves_loaded_cookies(
    a: Account,
    b: Account,
    step: MigrationStep,
    password: Seq<char>,
    cookie: Seq<char>,
    nonce: Result<Seq<u8>, Seq<char>>,
)
    requires
        file_step(a, b, step, password, Ok::<Seq<char>, ErrorView>(cookie), nonce),
        a.encrypted_cookie is None,
        encode_utf8(cookie).len() <= AES_GCM_P_MAX,
        base64_len_fits(encode_utf8(cookie).len() + blob_overhead()),
        nonce is Ok,
    ensures
        step is Moved,
        b.encrypted_cookie is Some,
        spec_decrypt_cookie(b.encrypted_cookie->Some_0@, password) == Ok::<Seq<char>, ErrorView>(cookie),
        b == with_cookie(a, b.encrypted_cookie),
{
}

} // verus!
