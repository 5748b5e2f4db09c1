use kevgir::cipher::{encrypt_migros, CipherError};
use kevgir::platform::{
    build_encrypted_payload, MigrosPayloadMenuDetails, MigrosPayloadOptions,
};

const KEY: &str = "0123456789abcdef0123456789abcdef";

#[test]
fn encrypt_is_deterministic_for_same_payload_and_key() {
    let payload = "{\"menuId\":123}";
    let a = encrypt_migros(payload, KEY).unwrap();
    let b = encrypt_migros(payload, KEY).unwrap();
    assert_eq!(a, b);
}

#[test]
fn encrypt_matches_fixed_vectors() {
    // Computed with an independent AES-256-ECB/PKCS7 implementation; the
    // wire value must match it on every run and platform.
    assert_eq!(
        encrypt_migros("{\"menuId\":123}", KEY).unwrap(),
        "K+yRS6bqNrFwY9kJJq70mg=="
    );
    assert_eq!(
        encrypt_migros("{\"storeId\":10,\"productId\":555,\"status\":\"passive\"}", KEY).unwrap(),
        "L8U9WYexvAByV5Sac76bB+hcaeiwgelnXh8fkNFPM/BMp6m17CH0YOjM//6UXbeEqXJlxqy03L9aJnFc5wQeiA=="
    );
}

#[test]
fn encrypt_changes_when_payload_changes() {
    let a = encrypt_migros("{\"menuId\":123}", KEY).unwrap();
    let b = encrypt_migros("{\"menuId\":124}", KEY).unwrap();
    assert_ne!(a, b);
}

#[test]
fn encrypt_changes_when_key_changes() {
    let other_key = "0123456789abcdef0123456789abcdeX";
    let a = encrypt_migros("{\"menuId\":123}", KEY).unwrap();
    let b = encrypt_migros("{\"menuId\":123}", other_key).unwrap();
    assert_ne!(a, b);
}

#[test]
fn encrypt_rejects_short_key() {
    assert!(matches!(
        encrypt_migros("{\"menuId\":123}", "tooshort"),
        Err(CipherError::InvalidKeyLength)
    ));
}

#[test]
fn encrypt_rejects_long_key() {
    let long_key = "0123456789abcdef0123456789abcdef0";
    assert!(matches!(
        encrypt_migros("{}", long_key),
        Err(CipherError::InvalidKeyLength)
    ));
}

#[test]
fn ciphertext_length_follows_block_padding() {
    // 14 plaintext bytes pad to one 16-byte block: 24 base64 characters.
    let a = encrypt_migros("{\"menuId\":123}", KEY).unwrap();
    assert_eq!(a.len(), 24);
    // 16 plaintext bytes pad to two blocks: 44 base64 characters.
    let b = encrypt_migros("{\"menuId\":1234}!", KEY).unwrap();
    assert_eq!(b.len(), 44);
}

#[test]
fn ciphertext_is_base64_of_whole_blocks_and_not_plaintext() {
    let payload = "{\"storeId\":1,\"storeGroupId\":2}";
    let encrypted = encrypt_migros(payload, KEY).unwrap();
    let raw = base64::Engine::decode(&base64::engine::general_purpose::STANDARD, &encrypted)
        .expect("the wire value must be valid base64");
    assert_eq!(raw.len() % 16, 0);
    assert_ne!(raw, payload.as_bytes());
    let plain_b64 = base64::Engine::encode(&base64::engine::general_purpose::STANDARD, payload);
    assert_ne!(encrypted, plain_b64);
}

#[test]
fn encrypted_payload_wraps_cipher_value() {
    let body = MigrosPayloadMenuDetails {
        store_id: 7,
        store_group_id: 9,
    };
    let json = body.to_json();
    let wrapped = build_encrypted_payload(&json, KEY).unwrap();
    let direct = encrypt_migros(&json, KEY).unwrap();
    assert_eq!(wrapped.value, direct);
    let wire = wrapped.to_json();
    assert_eq!(wire, format!("{{\"value\":\"{}\"}}", direct));
}

#[test]
fn encrypted_payload_same_for_repeated_requests() {
    let body = MigrosPayloadOptions { menu_id: 123 };
    let a = build_encrypted_payload(&body.to_json(), KEY).unwrap();
    let b = build_encrypted_payload(&body.to_json(), KEY).unwrap();
    assert_eq!(a.value, b.value);
}
