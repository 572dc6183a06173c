use credential_vault::{
    layer1_decrypt, layer1_encrypt, layer1_seal, layer2_decrypt, layer2_encrypt, layer2_seal,
    open_inner, open_layers, seal_layers, ErrorKind,
};

const EMAIL: &str = "a@2925.com";

fn device() -> Option<String> {
    Some("device-0001".to_string())
}

#[test]
fn scenario_a_round_trip() {
    let blob = seal_layers("Secret123!", EMAIL, &device()).unwrap();
    let back = open_layers(&blob, EMAIL, &device()).unwrap();
    assert_eq!(back, "Secret123!");
}

#[test]
fn two_protections_differ_and_both_open() {
    let first = seal_layers("pässwörd", EMAIL, &device()).unwrap();
    let second = seal_layers("pässwörd", EMAIL, &device()).unwrap();
    assert_ne!(first, second);
    assert_ne!(first[..32], second[..32]);
    assert_eq!(open_layers(&first, EMAIL, &device()).unwrap(), "pässwörd");
    assert_eq!(open_layers(&second, EMAIL, &device()).unwrap(), "pässwörd");
}

#[test]
fn scenario_b_flipped_byte_is_decryption_failure() {
    let mut blob = seal_layers("Secret123!", EMAIL, &device()).unwrap();
    blob[50] ^= 0x01;
    let err = open_layers(&blob, EMAIL, &device()).unwrap_err();
    assert_eq!(err.kind(), ErrorKind::DecryptionFailed);
}

#[test]
fn flipped_bits_in_layer2_header_and_tag_fail() {
    let inner = vec![7u8; 60];
    let outer = layer2_seal(&inner, EMAIL, &[1u8; 32], &[2u8; 12]).unwrap();
    for pos in [0usize, 31, 32, 43, outer.len() - 1] {
        let mut bad = outer.clone();
        bad[pos] ^= 0x80;
        let err = layer2_decrypt(&bad, EMAIL).unwrap_err();
        assert_eq!(err.kind(), ErrorKind::DecryptionFailed);
    }
}

#[test]
fn scenario_c_ten_byte_blob_is_invalid() {
    let err = open_layers(&[0u8; 10], EMAIL, &device()).unwrap_err();
    assert_eq!(err.kind(), ErrorKind::InvalidData);
}

#[test]
fn payload_of_43_bytes_is_invalid_at_both_layers() {
    let short = [9u8; 43];
    assert_eq!(layer2_decrypt(&short, EMAIL).unwrap_err().kind(), ErrorKind::InvalidData);
    assert_eq!(layer1_decrypt(&short, EMAIL, &device()).unwrap_err().kind(), ErrorKind::InvalidData);
    assert_eq!(layer1_decrypt(&short, EMAIL, &None).unwrap_err().kind(), ErrorKind::InvalidData);
}

#[test]
fn scenario_e_missing_device_identity_fails_encryption() {
    let err = seal_layers("Secret123!", EMAIL, &None).unwrap_err();
    assert_eq!(err.kind(), ErrorKind::EncryptionFailed);
    let err = layer1_encrypt(b"Secret123!", EMAIL, &None).unwrap_err();
    assert_eq!(err.kind(), ErrorKind::EncryptionFailed);
}

#[test]
fn layer1_needs_device_identity_to_decrypt() {
    let err = layer1_decrypt(&[0u8; 80], EMAIL, &None).unwrap_err();
    assert_eq!(err.kind(), ErrorKind::EncryptionFailed);
}

#[test]
fn layer1_seal_frames_salt_nonce_and_tag() {
    let salt = [3u8; 32];
    let nonce = [4u8; 12];
    let a = layer1_seal(b"Secret123!", EMAIL, "device-0001", &salt, &nonce).unwrap();
    assert_eq!(a.len(), 44 + 10 + 16);
    assert_eq!(a[..32], salt);
    assert_eq!(a[32..44], nonce);
    assert_ne!(a[44..54], b"Secret123!"[..]);
    let b = layer1_seal(b"Secret123!", EMAIL, "device-0001", &salt, &nonce).unwrap();
    assert_eq!(a, b);
    assert_eq!(layer1_decrypt(&a, EMAIL, &device()).unwrap(), b"Secret123!".to_vec());
}

#[test]
fn layer1_blob_from_another_device_fails() {
    let blob = layer1_seal(b"Secret123!", EMAIL, "device-0001", &[5u8; 32], &[6u8; 12]).unwrap();
    let other = Some("device-0002".to_string());
    let err = layer1_decrypt(&blob, EMAIL, &other).unwrap_err();
    assert_eq!(err.kind(), ErrorKind::DecryptionFailed);
}

#[test]
fn layer2_blob_for_another_user_fails() {
    let blob = layer2_seal(b"opaque", EMAIL, &[5u8; 32], &[6u8; 12]).unwrap();
    assert_eq!(blob.len(), 44 + 6 + 16);
    let err = layer2_decrypt(&blob, "b@2925.com").unwrap_err();
    assert_eq!(err.kind(), ErrorKind::DecryptionFailed);
    assert_eq!(layer2_decrypt(&blob, EMAIL).unwrap(), b"opaque".to_vec());
}

#[test]
fn layer2_encrypt_round_trips_with_fresh_salt() {
    let a = layer2_encrypt(b"inner", EMAIL).unwrap();
    assert_eq!(a.len(), 44 + 5 + 16);
    assert_eq!(layer2_decrypt(&a, EMAIL).unwrap(), b"inner".to_vec());
}

#[test]
fn non_utf8_plaintext_is_invalid_data() {
    let inner = layer1_seal(&[0xff, 0xfe], EMAIL, "device-0001", &[1u8; 32], &[1u8; 12]).unwrap();
    let outer = layer2_seal(&inner, EMAIL, &[2u8; 32], &[2u8; 12]).unwrap();
    let err = open_layers(&outer, EMAIL, &device()).unwrap_err();
    assert_eq!(err.kind(), ErrorKind::InvalidData);
}

#[test]
fn corrupted_layer2_fails_the_same_with_or_without_device() {
    let mut outer = layer2_seal(&[8u8; 70], EMAIL, &[2u8; 32], &[3u8; 12]).unwrap();
    outer[40] ^= 0x04;
    let with_device = open_layers(&outer, EMAIL, &device()).unwrap_err();
    let without_device = open_layers(&outer, EMAIL, &None).unwrap_err();
    assert_eq!(with_device.kind(), ErrorKind::DecryptionFailed);
    assert_eq!(without_device.kind(), ErrorKind::DecryptionFailed);
}

#[test]
fn stored_blob_is_password_length_plus_two_frames() {
    let blob = seal_layers("Secret123!", EMAIL, &device()).unwrap();
    assert_eq!(blob.len(), 10 + 120);
}

#[test]
fn wrong_key_and_altered_bytes_report_the_same_detail() {
    let blob = layer2_seal(b"opaque", EMAIL, &[5u8; 32], &[6u8; 12]).unwrap();
    let wrong_key = layer2_decrypt(&blob, "b@2925.com").unwrap_err();
    let mut altered = blob.clone();
    altered[45] ^= 0x10;
    let tampered = layer2_decrypt(&altered, EMAIL).unwrap_err();
    assert_eq!(wrong_key.kind(), ErrorKind::DecryptionFailed);
    assert_eq!(wrong_key.message(), tampered.message());
    assert_eq!(tampered.message(), "解密失败: 第二层解密失败: aead::Error");
}

#[test]
fn layer1_short_payload_keeps_original_detail() {
    let err = open_inner(&[0u8; 20], EMAIL, &None).unwrap_err();
    assert_eq!(err.kind(), ErrorKind::InvalidData);
    assert_eq!(err.message(), "无效数据: 加密数据太短");
}
