//! The two encryption layers and their composition.
//!
//! Both layers frame their output as `salt (32) || nonce (12) || ciphertext with tag`
//! and derive the AES-256-GCM key with PBKDF2-HMAC-SHA-256 from a secret and the
//! salt. Layer 1 takes the secret from the device identity and the user, at
//! 100,000 rounds; layer 2 from the user alone, at 200,000 rounds.

use vstd::prelude::*;
use vstd::utf8::*;
use vstd::slice::slice_subrange;
use crate::error::{CryptoError, ErrorKind, error_of, error_with_cause};
use crate::primitives::{
    aead_open, aead_plain_max, aead_seal, aead_tag_len, aes_gcm_opened, aes_gcm_sealed,
    derive_key, pbkdf2_sha256, random_bytes, utf8_string,
};

verus! {

broadcast use vstd::utf8::encode_utf8_valid_utf8, vstd::utf8::encode_utf8_decode_utf8;

pub const SALT_LEN: usize = 32;
pub const NONCE_LEN: usize = 12;
/// Salt and nonce together: the shortest payload that is examined further.
pub const HEADER_LEN: usize = 44;
pub const DEVICE_ROUNDS: u32 = 100000;
pub const USER_ROUNDS: u32 = 200000;

/// The key-derivation secret of layer 1: the device identity followed by the user.
pub open spec fn device_secret(device: Seq<char>, user: Seq<char>) -> Seq<u8> {
    encode_utf8(device) + encode_utf8(user)
}

/// The key-derivation secret of layer 2: the user alone.
pub open spec fn user_secret(user: Seq<char>) -> Seq<u8> {
    encode_utf8(user)
}

/// A framed blob: salt, nonce, and `plain` sealed under the key derived from
/// `secret` and the salt.
pub open spec fn framed(secret: Seq<u8>, rounds: u32, salt: Seq<u8>, nonce: Seq<u8>, plain: Seq<u8>) -> Seq<u8> {
    salt + nonce + aes_gcm_sealed(pbkdf2_sha256(secret, salt, rounds), nonce, plain)
}

/// What opening a framed blob gives: too short is invalid, a tag that does not
/// verify is a decryption failure.
pub open spec fn unframed(blob: Seq<u8>, secret: Seq<u8>, rounds: u32) -> Result<Seq<u8>, ErrorKind> {
    if blob.len() < HEADER_LEN {
        Err(ErrorKind::InvalidData)
    } else {
        let salt = blob.subrange(0, SALT_LEN as int);
        let nonce = blob.subrange(SALT_LEN as int, HEADER_LEN as int);
        let body = blob.subrange(HEADER_LEN as int, blob.len() as int);
        match aes_gcm_opened(pbkdf2_sha256(secret, salt, rounds), nonce, body) {
            Some(p) => Ok(p),
            None => Err(ErrorKind::DecryptionFailed),
        }
    }
}

/// Layer-1 decryption: the length is checked before the device identity is needed.
pub open spec fn layer1_opened(blob: Seq<u8>, user: Seq<char>, device: Option<Seq<char>>) -> Result<Seq<u8>, ErrorKind> {
    if blob.len() < HEADER_LEN {
        Err(ErrorKind::InvalidData)
    } else {
        match device {
            None => Err(ErrorKind::EncryptionFailed),
            Some(d) => unframed(blob, device_secret(d, user), DEVICE_ROUNDS),
        }
    }
}

/// Layer-2 decryption.
pub open spec fn layer2_opened(blob: Seq<u8>, user: Seq<char>) -> Result<Seq<u8>, ErrorKind> {
    unframed(blob, user_secret(user), USER_ROUNDS)
}

/// The read path from a layer-1 blob: layer 1, then UTF-8.
pub open spec fn opened_inner(inner: Seq<u8>, user: Seq<char>, device: Option<Seq<char>>) -> Result<Seq<char>, ErrorKind> {
    match layer1_opened(inner, user, device) {
        Err(k) => Err(k),
        Ok(p) => if valid_utf8(p) {
            Ok(decode_utf8(p))
        } else {
            Err(ErrorKind::InvalidData)
        },
    }
}

/// The full read path from a layer-2 blob: layer 2, then layer 1, then UTF-8.
pub open spec fn opened_layers(blob: Seq<u8>, user: Seq<char>, device: Option<Seq<char>>) -> Result<Seq<char>, ErrorKind> {
    match layer2_opened(blob, user) {
        Err(k) => Err(k),
        Ok(inner) => opened_inner(inner, user, device),
    }
}

/// The detail of every layer-1 tag failure, whether the key was wrong or the
/// bytes were altered.
pub open spec fn layer1_open_failure() -> Seq<char> {
    "解密失败: aead::Error"@
}

/// The detail of every layer-2 tag failure, whether the key was wrong or the
/// bytes were altered.
pub open spec fn layer2_open_failure() -> Seq<char> {
    "第二层解密失败: aead::Error"@
}

pub open spec fn device_view(device: Option<String>) -> Option<Seq<char>> {
    match device {
        Some(d) => Some(d@),
        None => None,
    }
}

pub open spec fn bytes_result(r: Result<Vec<u8>, CryptoError>) -> Result<Seq<u8>, ErrorKind> {
    match r {
        Ok(b) => Ok(b@),
        Err(e) => Err(e.spec_kind()),
    }
}

pub open spec fn text_result(r: Result<String, CryptoError>) -> Result<Seq<char>, ErrorKind> {
    match r {
        Ok(s) => Ok(s@),
        Err(e) => Err(e.spec_kind()),
    }
}

fn concat3(a: &[u8], b: &[u8], c: &[u8]) -> (r: Vec<u8>)
    ensures
        r@ == a@ + b@ + c@,
{
    let mut r: Vec<u8> = Vec::new();
    r.extend_from_slice(a);
    r.extend_from_slice(b);
    r.extend_from_slice(c);
    assert(r@ =~= a@ + b@ + c@);
    r
}

fn device_secret_bytes(device: &str, user: &str) -> (r: Vec<u8>)
    ensures
        r@ == device_secret(device@, user@),
{
    let mut r: Vec<u8> = Vec::new();
    r.extend_from_slice(device.as_bytes());
    r.extend_from_slice(user.as_bytes());
    assert(r@ =~= device_secret(device@, user@));
    r
}

/// Seals `plain` under `secret` with the given salt and nonce and frames it.
fn seal_framed(secret: &[u8], rounds: u32, salt: &[u8], nonce: &[u8], plain: &[u8]) -> (r: Option<Vec<u8>>)
    requires
        salt@.len() == SALT_LEN,
        nonce@.len() == NONCE_LEN,
    ensures
        r is Some <==> plain@.len() <= aead_plain_max(),
        r matches Some(b) ==> {
            &&& b@ == framed(secret@, rounds, salt@, nonce@, plain@)
            &&& b@.len() == HEADER_LEN + plain@.len() + aead_tag_len()
            &&& unframed(b@, secret@, rounds) == Ok::<Seq<u8>, ErrorKind>(plain@)
        },
{
    let key = derive_key(secret, salt, rounds);
    match aead_seal(key.as_slice(), nonce, plain) {
        None => None,
        Some(c) => {
            let b = concat3(salt, nonce, c.as_slice());
            assert(b@.subrange(0, SALT_LEN as int) =~= salt@);
            assert(b@.subrange(SALT_LEN as int, HEADER_LEN as int) =~= nonce@);
            assert(b@.subrange(HEADER_LEN as int, b@.len() as int) =~= c@);
            Some(b)
        },
    }
}

/// Opens a framed blob under `secret`; each failure carries the detail given for its kind.
fn open_framed(blob: &[u8], secret: &[u8], rounds: u32, too_short: &str, rejected: &str) -> (r: Result<Vec<u8>, CryptoError>)
    ensures
        bytes_result(r) == unframed(blob@, secret@, rounds),
        r matches Err(e) ==> e.detail()@ == if e.kind() == ErrorKind::InvalidData { too_short@ } else { rejected@ },
{
    if blob.len() < HEADER_LEN {
        return Err(error_of(ErrorKind::InvalidData, too_short));
    }
    let salt = slice_subrange(blob, 0, SALT_LEN);
    let nonce = slice_subrange(blob, SALT_LEN, HEADER_LEN);
    let body = slice_subrange(blob, HEADER_LEN, blob.len());
    let key = derive_key(secret, salt, rounds);
    match aead_open(key.as_slice(), nonce, body) {
        Some(p) => Ok(p),
        None => Err(error_of(ErrorKind::DecryptionFailed, rejected)),
    }
}

/// Layer-1 encryption with a given salt and nonce: binds `data` to the device
/// identity and the user.
pub fn layer1_seal(data: &[u8], email: &str, device: &str, salt: &[u8], nonce: &[u8]) -> (r: Result<Vec<u8>, CryptoError>)
    requires
        salt@.len() == SALT_LEN,
        nonce@.len() == NONCE_LEN,
    ensures
        r is Ok <==> data@.len() <= aead_plain_max(),
        r matches Ok(b) ==> {
            &&& b@ == framed(device_secret(device@, email@), DEVICE_ROUNDS, salt@, nonce@, data@)
            &&& b@.len() == HEADER_LEN + data@.len() + aead_tag_len()
            &&& layer1_opened(b@, email@, Some(device@)) == Ok::<Seq<u8>, ErrorKind>(data@)
        },
        r matches Err(e) ==> e.kind() == ErrorKind::EncryptionFailed,
{
    let secret = device_secret_bytes(device, email);
    match seal_framed(secret.as_slice(), DEVICE_ROUNDS, salt, nonce, data) {
        Some(b) => Ok(b),
        None => Err(error_of(ErrorKind::EncryptionFailed, "加密失败: aead::Error")),
    }
}

/// Layer-2 encryption with a given salt and nonce: re-wraps `data` under a key
/// derived from the user alone.
pub fn layer2_seal(data: &[u8], email: &str, salt: &[u8], nonce: &[u8]) -> (r: Result<Vec<u8>, CryptoError>)
    requires
        salt@.len() == SALT_LEN,
        nonce@.len() == NONCE_LEN,
    ensures
        r is Ok <==> data@.len() <= aead_plain_max(),
        r matches Ok(b) ==> {
            &&& b@ == framed(user_secret(email@), USER_ROUNDS, salt@, nonce@, data@)
            &&& b@.len() == HEADER_LEN + data@.len() + aead_tag_len()
            &&& layer2_opened(b@, email@) == Ok::<Seq<u8>, ErrorKind>(data@)
        },
        r matches Err(e) ==> e.kind() == ErrorKind::EncryptionFailed,
{
    match seal_framed(email.as_bytes(), USER_ROUNDS, salt, nonce, data) {
        Some(b) => Ok(b),
        None => Err(error_of(ErrorKind::EncryptionFailed, "第二层加密失败: aead::Error")),
    }
}

/// Draws a fresh salt and nonce from the system's secure generator.
fn fresh_salt_and_nonce() -> (r: Result<(Vec<u8>, Vec<u8>), CryptoError>)
    ensures
        r matches Ok((s, n)) ==> s@.len() == SALT_LEN && n@.len() == NONCE_LEN,
        r matches Err(e) ==> e.kind() == ErrorKind::EncryptionFailed,
{
    let salt = match random_bytes(SALT_LEN) {
        Some(s) => s,
        None => return Err(error_of(ErrorKind::EncryptionFailed, "无法生成随机数")),
    };
    let nonce = match random_bytes(NONCE_LEN) {
        Some(n) => n,
        None => return Err(error_of(ErrorKind::EncryptionFailed, "无法生成随机数")),
    };
    Ok((salt, nonce))
}

/// Layer-1 encryption with a fresh salt and nonce. `device` is the device
/// identity, or `None` where the platform could not supply one.
pub fn layer1_encrypt(data: &[u8], email: &str, device: &Option<String>) -> (r: Result<Vec<u8>, CryptoError>)
    ensures
        device is None ==> r is Err,
        data@.len() > aead_plain_max() ==> r is Err,
        r matches Err(e) ==> e.kind() == ErrorKind::EncryptionFailed,
        r matches Ok(b) ==> {
            &&& device matches Some(d)
            &&& b@.len() == HEADER_LEN + data@.len() + aead_tag_len()
            &&& b@ == framed(device_secret(d@, email@), DEVICE_ROUNDS, b@.subrange(0, SALT_LEN as int),
                b@.subrange(SALT_LEN as int, HEADER_LEN as int), data@)
            &&& layer1_opened(b@, email@, device_view(*device)) == Ok::<Seq<u8>, ErrorKind>(data@)
        },
{
    let d = match device {
        Some(d) => d,
        None => return Err(error_of(ErrorKind::EncryptionFailed, "无法获取机器ID")),
    };
    let (salt, nonce) = fresh_salt_and_nonce()?;
    let b = layer1_seal(data, email, d.as_str(), salt.as_slice(), nonce.as_slice())?;
    assert(b@.subrange(0, SALT_LEN as int) =~= salt@);
    assert(b@.subrange(SALT_LEN as int, HEADER_LEN as int) =~= nonce@);
    Ok(b)
}

/// Layer-1 decryption. The length is checked first; the device identity is
/// needed only past that check.
pub fn layer1_decrypt(blob: &[u8], email: &str, device: &Option<String>) -> (r: Result<Vec<u8>, CryptoError>)
    ensures
        bytes_result(r) == layer1_opened(blob@, email@, device_view(*device)),
        r matches Err(e) ==> (e.kind() == ErrorKind::DecryptionFailed ==> e.detail()@ == layer1_open_failure()),
{
    if blob.len() < HEADER_LEN {
        return Err(error_of(ErrorKind::InvalidData, "加密数据太短"));
    }
    let d = match device {
        Some(d) => d,
        None => return Err(error_of(ErrorKind::EncryptionFailed, "无法获取机器ID")),
    };
    let secret = device_secret_bytes(d.as_str(), email);
    open_framed(blob, secret.as_slice(), DEVICE_ROUNDS, "加密数据太短", "解密失败: aead::Error")
}

/// Layer-2 encryption with a fresh salt and nonce.
pub fn layer2_encrypt(data: &[u8], email: &str) -> (r: Result<Vec<u8>, CryptoError>)
    ensures
        data@.len() > aead_plain_max() ==> r is Err,
        r matches Err(e) ==> e.kind() == ErrorKind::EncryptionFailed,
        r matches Ok(b) ==> {
            &&& b@.len() == HEADER_LEN + data@.len() + aead_tag_len()
            &&& b@ == framed(user_secret(email@), USER_ROUNDS, b@.subrange(0, SALT_LEN as int),
                b@.subrange(SALT_LEN as int, HEADER_LEN as int), data@)
            &&& layer2_opened(b@, email@) == Ok::<Seq<u8>, ErrorKind>(data@)
        },
{
    let (salt, nonce) = fresh_salt_and_nonce()?;
    let b = layer2_seal(data, email, salt.as_slice(), nonce.as_slice())?;
    assert(b@.subrange(0, SALT_LEN as int) =~= salt@);
    assert(b@.subrange(SALT_LEN as int, HEADER_LEN as int) =~= nonce@);
    Ok(b)
}

/// Layer-2 decryption.
pub fn layer2_decrypt(blob: &[u8], email: &str) -> (r: Result<Vec<u8>, CryptoError>)
    ensures
        bytes_result(r) == layer2_opened(blob@, email@),
        r matches Err(e) ==> (e.kind() == ErrorKind::DecryptionFailed ==> e.detail()@ == layer2_open_failure()),
{
    open_framed(blob, email.as_bytes(), USER_ROUNDS, "第二层加密数据太短", "第二层解密失败: aead::Error")
}

/// Both layers in order over the UTF-8 bytes of `password`: the blob that the
/// secret store keeps. Whatever salts and nonces were drawn, the read path
/// gives the password back.
pub fn seal_layers(password: &str, email: &str, device: &Option<String>) -> (r: Result<Vec<u8>, CryptoError>)
    ensures
        device is None ==> r is Err,
        encode_utf8(password@).len() + HEADER_LEN + aead_tag_len() > aead_plain_max() ==> r is Err,
        r matches Err(e) ==> e.kind() == ErrorKind::EncryptionFailed,
        r matches Ok(b) ==> {
            &&& device matches Some(d)
            &&& b@.len() == encode_utf8(password@).len() + 2 * (HEADER_LEN + aead_tag_len())
            &&& exists|inner: Seq<u8>|
                #![trigger framed(user_secret(email@), USER_ROUNDS, b@.subrange(0, SALT_LEN as int),
                    b@.subrange(SALT_LEN as int, HEADER_LEN as int), inner)]
                b@ == framed(user_secret(email@), USER_ROUNDS, b@.subrange(0, SALT_LEN as int),
                    b@.subrange(SALT_LEN as int, HEADER_LEN as int), inner)
                && inner == framed(device_secret(d@, email@), DEVICE_ROUNDS, inner.subrange(0, SALT_LEN as int),
                    inner.subrange(SALT_LEN as int, HEADER_LEN as int), encode_utf8(password@))
            &&& opened_layers(b@, email@, device_view(*device)) == Ok::<Seq<char>, ErrorKind>(password@)
        },
{
    let inner = layer1_encrypt(password.as_bytes(), email, device)?;
    let outer = layer2_encrypt(inner.as_slice(), email)?;
    proof {
        assert(decode_utf8(encode_utf8(password@)) == password@);
        assert(outer@ == framed(user_secret(email@), USER_ROUNDS, outer@.subrange(0, SALT_LEN as int),
            outer@.subrange(SALT_LEN as int, HEADER_LEN as int), inner@));
    }
    Ok(outer)
}

/// The read path from a layer-1 blob: layer 1, then UTF-8.
pub fn open_inner(inner: &[u8], email: &str, device: &Option<String>) -> (r: Result<String, CryptoError>)
    ensures
        text_result(r) == opened_inner(inner@, email@, device_view(*device)),
        r matches Err(e) ==> (e.kind() == ErrorKind::DecryptionFailed ==> e.detail()@ == layer1_open_failure()),
{
    let plain = layer1_decrypt(inner, email, device)?;
    match utf8_string(plain) {
        Ok(s) => Ok(s),
        Err(m) => Err(error_with_cause(ErrorKind::InvalidData, "密码数据无效: ", m.as_str())),
    }
}

/// The read path from a layer-2 blob: layer 2, then layer 1, then UTF-8.
pub fn open_layers(blob: &[u8], email: &str, device: &Option<String>) -> (r: Result<String, CryptoError>)
    ensures
        text_result(r) == opened_layers(blob@, email@, device_view(*device)),
{
    let inner = layer2_decrypt(blob, email)?;
    open_inner(inner.as_slice(), email, device)
}

/// A blob shorter than salt and nonce reads as invalid data whatever the user,
/// the device and the keys would be: no key is derived and no cipher runs on it.
pub proof fn lemma_short_blob_is_invalid(blob: Seq<u8>, user: Seq<char>, device: Option<Seq<char>>)
    requires
        blob.len() < HEADER_LEN,
    ensures
        layer2_opened(blob, user) == Err::<Seq<u8>, ErrorKind>(ErrorKind::InvalidData),
        opened_layers(blob, user, device) == Err::<Seq<char>, ErrorKind>(ErrorKind::InvalidData),
{
}

/// When layer 2 rejects a blob, the read fails with layer 2's own error, and the
/// outcome does not depend on the device identity: layer 1 is never reached.
pub proof fn lemma_layer2_rejection_stops_read(
    blob: Seq<u8>,
    user: Seq<char>,
    device: Option<Seq<char>>,
    other_device: Option<Seq<char>>,
)
    requires
        layer2_opened(blob, user) is Err,
    ensures
        opened_layers(blob, user, device) == opened_layers(blob, user, other_device),
        opened_layers(blob, user, device) matches Err(k)
            && layer2_opened(blob, user) == Err::<Seq<u8>, ErrorKind>(k),
{
}

} // verus!
