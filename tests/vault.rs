use credential_vault::vault::{decode_read, decode_stored, encode_stored, SERVICE_NAME};
use credential_vault::{
    delete_saved_password, encrypt_and_save_password, layer2_seal, load_and_decrypt_password, open_layers, CryptoError,
    ErrorKind,
};

#[test]
fn stored_text_is_standard_padded_base64() {
    assert_eq!(encode_stored(b"hello"), "aGVsbG8=");
    assert_eq!(encode_stored(&[0xfb, 0xff]), "+/8=");
    assert_eq!(decode_stored("aGVsbG8=").unwrap(), b"hello".to_vec());
}

#[test]
fn stored_text_that_is_not_base64_is_invalid() {
    let err = decode_stored("not base64!").unwrap_err();
    assert_eq!(err.kind(), ErrorKind::InvalidData);
}

#[test]
fn stored_ten_byte_blob_is_invalid() {
    let text = encode_stored(&[1u8; 10]);
    let blob = decode_stored(&text).unwrap();
    let err = open_layers(&blob, "a@2925.com", &Some("d".to_string())).unwrap_err();
    assert_eq!(err.kind(), ErrorKind::InvalidData);
}

#[test]
fn stored_text_with_flipped_byte_fails_authentication() {
    let blob = layer2_seal(&[5u8; 70], "a@2925.com", &[1u8; 32], &[2u8; 12]).unwrap();
    let mut back = decode_stored(&encode_stored(&blob)).unwrap();
    assert_eq!(back, blob);
    back[50] ^= 0xff;
    let err = open_layers(&back, "a@2925.com", &Some("d".to_string())).unwrap_err();
    assert_eq!(err.kind(), ErrorKind::DecryptionFailed);
}

#[test]
fn scenario_d_forgotten_password_is_keyring_error() {
    let _ = delete_saved_password("a@2925.com");
    let err = load_and_decrypt_password("a@2925.com").unwrap_err();
    assert_eq!(err.kind(), ErrorKind::KeyringError);
}

#[test]
fn service_name_is_fixed() {
    assert_eq!(SERVICE_NAME, "email-manager-2925");
}

#[test]
fn error_message_names_kind_and_detail() {
    let e = CryptoError::InvalidData("too short".to_string());
    assert_eq!(e.kind(), ErrorKind::InvalidData);
    assert_eq!(e.message(), "无效数据: too short");
    let k = CryptoError::KeyringError("locked".to_string());
    assert_eq!(k.message(), "密钥环错误: locked");
    assert_eq!(CryptoError::EncryptionFailed("x".to_string()).message(), "加密失败: x");
    assert_eq!(CryptoError::DecryptionFailed("y".to_string()).message(), "解密失败: y");
}

#[test]
fn save_then_load_through_the_platform_store() {
    let email = "round-trip@2925.com";
    match encrypt_and_save_password("Secret123!", email) {
        Ok(()) => {
            assert_eq!(load_and_decrypt_password(email).unwrap(), "Secret123!");
            delete_saved_password(email).unwrap();
            let err = load_and_decrypt_password(email).unwrap_err();
            assert_eq!(err.kind(), ErrorKind::KeyringError);
        }
        Err(e) => {
            assert!(matches!(e.kind(), ErrorKind::EncryptionFailed | ErrorKind::KeyringError));
        }
    }
}

#[test]
fn failed_store_read_is_keyring_error() {
    let err = decode_read(Err("no entry".to_string())).unwrap_err();
    assert_eq!(err.kind(), ErrorKind::KeyringError);
    assert_eq!(err.message(), "密钥环错误: 从keyring读取失败: no entry");
}

#[test]
fn store_read_text_is_decoded() {
    assert_eq!(decode_read(Ok("aGVsbG8=".to_string())).unwrap(), b"hello".to_vec());
    let err = decode_read(Ok("%%%".to_string())).unwrap_err();
    assert_eq!(err.kind(), ErrorKind::InvalidData);
}
