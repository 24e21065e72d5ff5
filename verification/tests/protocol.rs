use axel::protocol::{
    aes_key, bytes_eq, call_meta_bytes, choose_session, default_iv, encrypt, is_hidden_param, jwt_payload,
    request_iv, request_pairs, response_claims, user_key_of, visible_params, SessionChoice, SessionKey,
};

use aes::cipher::block_padding::Pkcs7;
use aes::cipher::{BlockDecryptMut, BlockEncryptMut, KeyIvInit};
use base64::Engine;

#[test]
fn jwt_payload_is_the_middle_part() {
    assert_eq!(jwt_payload(b"aaa.bbb.ccc"), Some(b"bbb".to_vec()));
    assert_eq!(jwt_payload(b"a..c"), Some(Vec::new()));
    assert_eq!(jwt_payload(b"x.y.z.w"), Some(b"y".to_vec()));
}

#[test]
fn jwt_payload_needs_two_dots() {
    assert_eq!(jwt_payload(b"no dots"), None);
    assert_eq!(jwt_payload(b"one.dot"), None);
    assert_eq!(jwt_payload(b""), None);
}

#[test]
fn call_meta_decodes_the_payload() {
    let payload = base64::prelude::BASE64_STANDARD_NO_PAD.encode(br#"{"cs":"x","uk":null}"#);
    let token = format!("header.{}.signature", payload);
    assert_eq!(call_meta_bytes(token.as_bytes()), Some(br#"{"cs":"x","uk":null}"#.to_vec()));
    assert_eq!(call_meta_bytes(b"header.***.signature"), None);
}

#[test]
fn keys_are_the_fixed_ones() {
    let key = const_decoder::Decoder::Base64.decode::<16>(b"0x9AHqGo1sHGl/nIvD+MhA==");
    let iv = const_decoder::Decoder::Base64.decode::<16>(b"Ng84GF0J4+ahev99Wk/qMg==");
    assert_eq!(aes_key(), key.to_vec());
    assert_eq!(default_iv(), iv.to_vec());
}

#[test]
fn user_key_needs_sixteen_bytes_of_hex() {
    let key = user_key_of("000102030405060708090a0b0c0d0e0F");
    assert_eq!(key, Some((0u8..16).collect::<Vec<u8>>()));
    assert_eq!(user_key_of("0x000102030405060708090a0b0c0d0e0f"), Some((0u8..16).collect::<Vec<u8>>()));
    assert_eq!(user_key_of("0001"), None);
    assert_eq!(user_key_of("zz0102030405060708090a0b0c0d0e0f"), None);
    assert_eq!(user_key_of("00010"), None);
}

#[test]
fn request_iv_falls_back_to_the_fixed_iv() {
    assert_eq!(request_iv(&None), Some(default_iv()));
    assert_eq!(request_iv(&Some("ff".repeat(16))), Some(vec![0xff; 16]));
    assert_eq!(request_iv(&Some("ff".to_string())), None);
}

#[test]
fn issued_key_reads_back_as_iv() {
    let key: Vec<u8> = (100u8..116).collect();
    let claims = response_claims(&[1, 2, 3], Some(&key));
    assert_eq!(claims.len(), 2);
    assert_eq!(claims[0], ("cs".to_string(), "010203".to_string()));
    assert_eq!(claims[1].0, "uk");
    assert_eq!(request_iv(&Some(claims[1].1.clone())), Some(key));
}

#[test]
fn claims_without_a_session() {
    let claims = response_claims(&[0xab, 0xcd], None);
    assert_eq!(claims, vec![("cs".to_string(), "abcd".to_string())]);
}

#[test]
fn request_body_decrypts_to_pairs() {
    let iv = default_iv();
    let plain = b"uuid=abc&language=en&x=1%202";
    let encrypted = cbc::Encryptor::<aes::Aes128>::new(aes_key().as_slice().into(), iv.as_slice().into())
        .encrypt_padded_vec_mut::<Pkcs7>(plain);
    let pairs = request_pairs(&encrypted, &iv).unwrap();
    assert_eq!(
        pairs,
        vec![
            ("uuid".to_string(), "abc".to_string()),
            ("language".to_string(), "en".to_string()),
            ("x".to_string(), "1 2".to_string()),
        ]
    );
    assert_eq!(request_pairs(&[1, 2, 3], &iv), None);
}

#[test]
fn response_decrypts_back() {
    let key: Vec<u8> = (0u8..16).collect();
    let (encrypted, hash) = encrypt(b"{\"status\":0}", Some(&key));
    assert_eq!(hash, md5::compute(&encrypted).0.to_vec());
    let plain = cbc::Decryptor::<aes::Aes128>::new(aes_key().as_slice().into(), key.as_slice().into())
        .decrypt_padded_vec_mut::<Pkcs7>(&encrypted)
        .unwrap();
    assert_eq!(plain, b"{\"status\":0}".to_vec());
    let (fixed, _) = encrypt(b"abc", None);
    assert_ne!(fixed, encrypted);
    assert_eq!(fixed.len() % 16, 0);
}

#[test]
fn hidden_params_are_hidden() {
    assert!(is_hidden_param("user_key"));
    assert!(is_hidden_param("npaCode"));
    assert!(!is_hidden_param("uuid"));
    let body = vec![
        ("uuid".to_string(), "u".to_string()),
        ("ver".to_string(), "1".to_string()),
        ("quest_id".to_string(), "2".to_string()),
        ("deviceid".to_string(), "d".to_string()),
    ];
    assert_eq!(
        visible_params(&body),
        vec![("uuid".to_string(), "u".to_string()), ("quest_id".to_string(), "2".to_string())]
    );
}

#[test]
fn session_is_found_by_key() {
    let sessions = vec![
        SessionKey { user_id: 1, user_key: None },
        SessionKey { user_id: 2, user_key: Some(vec![7; 16]) },
    ];
    assert_eq!(choose_session(&sessions, &vec![7; 16], Some(9)), SessionChoice::Found(1));
    assert_eq!(choose_session(&sessions, &vec![7; 16], None), SessionChoice::Found(1));
    assert_eq!(choose_session(&sessions, &vec![8; 16], Some(9)), SessionChoice::Create(9));
    assert!(bytes_eq(&vec![1, 2], &vec![1, 2]));
    assert!(!bytes_eq(&vec![1, 2], &vec![1]));
}
