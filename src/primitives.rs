//! The outside cryptographic and platform primitives, each behind one small
//! trusted function whose contract states what the outside crate provides.

use vstd::prelude::*;
use vstd::utf8::*;
use aes_gcm::aead::{Aead, KeyInit};
use base64::Engine;
use rand::RngCore;

verus! {

/// Largest plaintext, in bytes, that AES-256-GCM accepts.
pub open spec fn aead_plain_max() -> nat {
    0x10_0000_0000
}

/// Bytes that AES-256-GCM appends to a ciphertext as its tag.
pub open spec fn aead_tag_len() -> nat {
    16
}

/// The key that PBKDF2 with HMAC-SHA-256 derives from `secret` and `salt`.
pub uninterp spec fn pbkdf2_sha256(secret: Seq<u8>, salt: Seq<u8>, rounds: u32) -> Seq<u8>;

/// AES-256-GCM encryption of `plain` under `key` and `nonce`, tag appended.
pub uninterp spec fn aes_gcm_sealed(key: Seq<u8>, nonce: Seq<u8>, plain: Seq<u8>) -> Seq<u8>;

/// AES-256-GCM decryption of `sealed`: `None` when the tag does not verify.
pub uninterp spec fn aes_gcm_opened(key: Seq<u8>, nonce: Seq<u8>, sealed: Seq<u8>) -> Option<Seq<u8>>;

/// Standard-alphabet, padded base64 text of `bytes`.
pub uninterp spec fn base64_encoded(bytes: Seq<u8>) -> Seq<char>;

/// The bytes that standard, padded base64 `text` stands for; `None` when it is not such text.
pub uninterp spec fn base64_decoded(text: Seq<char>) -> Option<Seq<u8>>;

/// Relies on pbkdf2::pbkdf2_hmac with sha2::Sha256: a deterministic 32-byte key.
#[verifier::external_body]
pub(crate) fn derive_key(secret: &[u8], salt: &[u8], rounds: u32) -> (r: Vec<u8>)
    ensures
        r@ == pbkdf2_sha256(secret@, salt@, rounds),
        r@.len() == 32,
{
    let mut key = vec![0u8; 32];
    pbkdf2::pbkdf2_hmac::<sha2::Sha256>(secret, salt, rounds, &mut key);
    key
}

/// Relies on aes_gcm's Aes256Gcm `encrypt`: it fails exactly past the plaintext
/// limit, and `decrypt` of its output under the same key and nonce gives the
/// plaintext back.
#[verifier::external_body]
pub(crate) fn aead_seal(key: &[u8], nonce: &[u8], plain: &[u8]) -> (r: Option<Vec<u8>>)
    requires
        key@.len() == 32,
        nonce@.len() == 12,
    ensures
        r is Some <==> plain@.len() <= aead_plain_max(),
        r matches Some(c) ==> {
            &&& c@ == aes_gcm_sealed(key@, nonce@, plain@)
            &&& c@.len() == plain@.len() + aead_tag_len()
            &&& aes_gcm_opened(key@, nonce@, c@) == Some(plain@)
        },
{
    let cipher = aes_gcm::Aes256Gcm::new_from_slice(key).ok()?;
    cipher.encrypt(aes_gcm::Nonce::from_slice(nonce), plain).ok()
}

/// Relies on aes_gcm's Aes256Gcm `decrypt`: the plaintext when the tag verifies;
/// input shorter than the tag never opens.
#[verifier::external_body]
pub(crate) fn aead_open(key: &[u8], nonce: &[u8], sealed: &[u8]) -> (r: Option<Vec<u8>>)
    requires
        key@.len() == 32,
        nonce@.len() == 12,
    ensures
        sealed@.len() < aead_tag_len() ==> r is None,
        match r {
            Some(p) => aes_gcm_opened(key@, nonce@, sealed@) == Some(p@),
            None => aes_gcm_opened(key@, nonce@, sealed@) is None,
        },
{
    let cipher = aes_gcm::Aes256Gcm::new_from_slice(key).ok()?;
    cipher.decrypt(aes_gcm::Nonce::from_slice(nonce), sealed).ok()
}

/// Relies on rand's `RngCore::try_fill_bytes` on the operating system's
/// generator (aes_gcm's `OsRng`): `n` fresh bytes, or nothing when the system
/// source fails.
#[verifier::external_body]
pub(crate) fn random_bytes(n: usize) -> (r: Option<Vec<u8>>)
    ensures
        r matches Some(v) ==> v@.len() == n,
{
    let mut buf = vec![0u8; n];
    aes_gcm::aead::OsRng.try_fill_bytes(&mut buf).ok()?;
    Some(buf)
}

/// Relies on base64's `general_purpose::STANDARD.encode`; the same engine's
/// `decode` reads its output back.
#[verifier::external_body]
pub(crate) fn base64_encode(bytes: &[u8]) -> (r: String)
    ensures
        r@ == base64_encoded(bytes@),
        base64_decoded(r@) == Some(bytes@),
{
    base64::engine::general_purpose::STANDARD.encode(bytes)
}

/// Relies on base64's `general_purpose::STANDARD.decode`.
#[verifier::external_body]
pub(crate) fn base64_decode(text: &str) -> (r: Result<Vec<u8>, String>)
    ensures
        match r {
            Ok(b) => base64_decoded(text@) == Some(b@),
            Err(_) => base64_decoded(text@) is None,
        },
{
    base64::engine::general_purpose::STANDARD.decode(text).map_err(|e| e.to_string())
}

/// Relies on std's `String::from_utf8`: the string whose UTF-8 bytes are
/// `bytes`, or the reason when they are not valid UTF-8.
#[verifier::external_body]
pub(crate) fn utf8_string(bytes: Vec<u8>) -> (r: Result<String, String>)
    ensures
        r is Ok <==> valid_utf8(bytes@),
        r matches Ok(s) ==> encode_utf8(s@) == bytes@,
{
    String::from_utf8(bytes).map_err(|e| e.to_string())
}

/// Relies on machine_uid::get: the platform's machine identifier, or the
/// reason it could not be read.
#[verifier::external_body]
pub(crate) fn machine_id() -> (r: Result<String, String>) {
    machine_uid::get().map_err(|e| e.to_string())
}

#[verifier::external_type_specification]
#[verifier::external_body]
pub struct ExEntry(keyring::Entry);

/// Relies on keyring::Entry::new: a handle on the record (service, user) of the
/// platform secret store.
#[verifier::external_body]
pub(crate) fn open_entry(service: &str, user: &str) -> (r: Result<keyring::Entry, String>) {
    keyring::Entry::new(service, user).map_err(|e| e.to_string())
}

/// Relies on keyring::Entry::set_password: writes the record, replacing any earlier value.
#[verifier::external_body]
pub(crate) fn entry_write(entry: &keyring::Entry, text: &str) -> (r: Result<(), String>) {
    entry.set_password(text).map_err(|e| e.to_string())
}

/// Relies on keyring::Entry::get_password: reads the record.
#[verifier::external_body]
pub(crate) fn entry_read(entry: &keyring::Entry) -> (r: Result<String, String>) {
    entry.get_password().map_err(|e| e.to_string())
}

/// Relies on keyring::Entry::delete_credential: removes the record.
#[verifier::external_body]
pub(crate) fn entry_remove(entry: &keyring::Entry) -> (r: Result<(), String>) {
    entry.delete_credential().map_err(|e| e.to_string())
}

} // verus!
