//! The secret-store side: base64 framing of the layer-2 blob, the platform
//! store, and the three operations that callers use.

use vstd::prelude::*;
use crate::error::{CryptoError, ErrorKind, error_with_cause};
use vstd::utf8::encode_utf8;
use crate::layers::{
    bytes_result, device_view, layer2_decrypt, open_inner, opened_layers, seal_layers, text_result,
    HEADER_LEN,
};
use crate::primitives::{
    aead_plain_max, aead_tag_len, base64_decode, base64_decoded, base64_encode, base64_encoded, entry_read, entry_remove,
    entry_write, machine_id, open_entry,
};

verus! {

/// The service under which every record is kept; the account is the user's email.
pub const SERVICE_NAME: &'static str = "email-manager-2925";

/// What a stored text stands for: the bytes it decodes to, or invalid data.
pub open spec fn stored_bytes(text: Seq<char>) -> Result<Seq<u8>, ErrorKind> {
    match base64_decoded(text) {
        Some(b) => Ok(b),
        None => Err(ErrorKind::InvalidData),
    }
}

/// What reading the record of `user` gives, from the text that the store handed
/// back: the decoded blob, then both layers and UTF-8.
pub open spec fn revealed(text: Seq<char>, user: Seq<char>, device: Option<Seq<char>>) -> Result<Seq<char>, ErrorKind> {
    match stored_bytes(text) {
        Err(k) => Err(k),
        Ok(blob) => opened_layers(blob, user, device),
    }
}

/// The text kept in the secret store for `blob`: standard base64, which reads back as `blob`.
pub fn encode_stored(blob: &[u8]) -> (r: String)
    ensures
        r@ == base64_encoded(blob@),
        stored_bytes(r@) == Ok::<Seq<u8>, ErrorKind>(blob@),
{
    base64_encode(blob)
}

/// The blob that a stored text stands for.
pub fn decode_stored(text: &str) -> (r: Result<Vec<u8>, CryptoError>)
    ensures
        bytes_result(r) == stored_bytes(text@),
{
    match base64_decode(text) {
        Ok(b) => Ok(b),
        Err(m) => Err(error_with_cause(ErrorKind::InvalidData, "base64解码失败: ", m.as_str())),
    }
}

fn entry_for(email: &str) -> (r: Result<keyring::Entry, CryptoError>)
    ensures
        r matches Err(e) ==> e.kind() == ErrorKind::KeyringError,
{
    match open_entry(SERVICE_NAME, email) {
        Ok(entry) => Ok(entry),
        Err(m) => Err(error_with_cause(ErrorKind::KeyringError, "创建keyring条目失败: ", m.as_str())),
    }
}

/// The blob from the outcome of a store read: a failed read is a keyring
/// error, a text read is decoded.
pub fn decode_read(read: Result<String, String>) -> (r: Result<Vec<u8>, CryptoError>)
    ensures
        read is Err ==> (r matches Err(e) && e.kind() == ErrorKind::KeyringError),
        read matches Ok(t) ==> bytes_result(r) == stored_bytes(t@),
{
    match read {
        Ok(t) => decode_stored(t.as_str()),
        Err(m) => Err(error_with_cause(ErrorKind::KeyringError, "从keyring读取失败: ", m.as_str())),
    }
}

/// Writes `data`, base64-encoded, as the record of `email`, replacing any earlier one.
pub fn layer3_save(email: &str, data: &[u8]) -> (r: Result<(), CryptoError>)
    ensures
        r matches Err(e) ==> e.kind() == ErrorKind::KeyringError,
{
    let entry = entry_for(email)?;
    let text = encode_stored(data);
    match entry_write(&entry, text.as_str()) {
        Ok(()) => Ok(()),
        Err(m) => Err(error_with_cause(ErrorKind::KeyringError, "保存到keyring失败: ", m.as_str())),
    }
}

/// Reads the record of `email` and decodes it. A missing record or a refused
/// read is a keyring error; text that is not base64 is invalid data.
pub fn layer3_load(email: &str) -> (r: Result<Vec<u8>, CryptoError>)
    ensures
        (r matches Err(e) && e.kind() == ErrorKind::KeyringError)
            || exists|text: Seq<char>| #[trigger] stored_bytes(text) == bytes_result(r),
{
    let entry = entry_for(email)?;
    decode_read(entry_read(&entry))
}

/// Removes the record of `email`; a missing record is a keyring error.
pub fn layer3_delete(email: &str) -> (r: Result<(), CryptoError>)
    ensures
        r matches Err(e) ==> e.kind() == ErrorKind::KeyringError,
{
    let entry = entry_for(email)?;
    match entry_remove(&entry) {
        Ok(()) => Ok(()),
        Err(m) => Err(error_with_cause(ErrorKind::KeyringError, "从keyring删除失败: ", m.as_str())),
    }
}

/// The identity of this device, or `None` where the platform supplies none.
fn device_identity() -> Option<String> {
    match machine_id() {
        Ok(d) => Some(d),
        Err(_) => None,
    }
}

/// Protects `password` for `email` and stores it: layer 1, layer 2, then the
/// store, in that order. The store is written only once both layers have
/// succeeded.
pub fn encrypt_and_save_password(password: &str, email: &str) -> (r: Result<(), CryptoError>)
    ensures
        encode_utf8(password@).len() + HEADER_LEN + aead_tag_len() > aead_plain_max()
            ==> (r matches Err(e) && e.kind() == ErrorKind::EncryptionFailed),
        r matches Err(e) ==> e.kind() == ErrorKind::EncryptionFailed || e.kind() == ErrorKind::KeyringError,
{
    let device = device_identity();
    let blob = seal_layers(password, email, &device)?;
    layer3_save(email, blob.as_slice())
}

/// Reads back the password stored for `email`: the store, layer 2, layer 1,
/// then UTF-8. Each failure keeps the kind of the stage that raised it. The
/// device identity is looked up only once layer 2 has opened and the layer-1
/// blob is long enough to be examined.
pub fn load_and_decrypt_password(email: &str) -> (r: Result<String, CryptoError>)
    ensures
        (r matches Err(e) && e.kind() == ErrorKind::KeyringError)
            || exists|text: Seq<char>, device: Option<Seq<char>>|
                #[trigger] revealed(text, email@, device) == text_result(r),
{
    let blob = match layer3_load(email) {
        Ok(b) => b,
        Err(e) => {
            proof {
                if e.kind() != ErrorKind::KeyringError {
                    let text = choose|text: Seq<char>| #[trigger] stored_bytes(text) == Err::<Seq<u8>, ErrorKind>(e.kind());
                    assert(revealed(text, email@, None) == Err::<Seq<char>, ErrorKind>(e.kind()));
                }
            }
            return Err(e);
        },
    };
    let ghost text = choose|text: Seq<char>| #[trigger] stored_bytes(text) == Ok::<Seq<u8>, ErrorKind>(blob@);
    let inner = match layer2_decrypt(blob.as_slice(), email) {
        Ok(i) => i,
        Err(e) => {
            assert(revealed(text, email@, None) == Err::<Seq<char>, ErrorKind>(e.kind()));
            return Err(e);
        },
    };
    let device = if inner.len() < HEADER_LEN {
        None
    } else {
        device_identity()
    };
    let r = open_inner(inner.as_slice(), email, &device);
    assert(revealed(text, email@, device_view(device)) == text_result(r));
    r
}

/// Forgets the password stored for `email`.
pub fn delete_saved_password(email: &str) -> (r: Result<(), CryptoError>)
    ensures
        r matches Err(e) ==> e.kind() == ErrorKind::KeyringError,
{
    layer3_delete(email)
}

} // verus!
