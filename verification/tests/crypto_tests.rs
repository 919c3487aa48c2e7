use aes_gcm::aead::{Aead, KeyInit};
use aes_gcm::{Aes256Gcm, Key, Nonce};
use base64::engine::general_purpose::STANDARD;
use base64::Engine;
use trump::crypto::{
    decrypt, encrypt, encrypt_with_nonce, frame, get_or_create_key, open_frame, plaintext_text,
    split_frame, CryptoError, KeyMaterial, KEY_LEN, NONCE_LEN,
};

fn key_bytes() -> Vec<u8> {
    (0u8..32).collect()
}

fn key() -> KeyMaterial {
    KeyMaterial::from_bytes(key_bytes()).ok().unwrap()
}

fn sealed_by_hand(key: &[u8], nonce: &[u8], plain: &[u8]) -> String {
    let cipher = Aes256Gcm::new(Key::<Aes256Gcm>::from_slice(key));
    let sealed = cipher.encrypt(Nonce::from_slice(nonce), plain).unwrap();
    let mut raw = nonce.to_vec();
    raw.extend(sealed);
    STANDARD.encode(raw)
}

#[test]
fn what_is_sealed_opens_to_itself() {
    let k = key();
    for s in ["", "hunter2", "pässwörd ∀x", "a much longer secret with spaces and\nnewlines"] {
        let text = encrypt(&k, s).unwrap();
        assert_eq!(decrypt(&k, &text), Ok(s.to_string()));
    }
}

#[test]
fn each_sealing_draws_a_new_nonce() {
    let k = key();
    let a = encrypt(&k, "same").unwrap();
    let b = encrypt(&k, "same").unwrap();
    assert_ne!(a, b);
    assert_eq!(decrypt(&k, &a), Ok("same".to_string()));
    assert_eq!(decrypt(&k, &b), Ok("same".to_string()));
}

#[test]
fn the_text_decodes_to_nonce_and_sealed_bytes_and_tag() {
    let k = key();
    for s in ["", "x", "hunter2", "pässwörd"] {
        let text = encrypt(&k, s).unwrap();
        let raw = STANDARD.decode(&text).unwrap();
        assert_eq!(raw.len(), 12 + s.len() + 16);
        assert_eq!(text.len(), (raw.len() + 2) / 3 * 4);
        let cipher = Aes256Gcm::new(Key::<Aes256Gcm>::from_slice(&key_bytes()));
        let sealed = cipher.encrypt(Nonce::from_slice(&raw[..12]), s.as_bytes()).unwrap();
        assert_eq!(&raw[12..], sealed.as_slice());
    }
}

#[test]
fn two_nonces_give_two_texts_that_open_to_the_same() {
    let k = key();
    let a = encrypt_with_nonce(&k, &[1u8; 12], "hunter2").unwrap();
    let b = encrypt_with_nonce(&k, &[2u8; 12], "hunter2").unwrap();
    assert_ne!(a, b);
    assert_eq!(decrypt(&k, &a), Ok("hunter2".to_string()));
    assert_eq!(decrypt(&k, &b), Ok("hunter2".to_string()));
    assert_eq!(encrypt_with_nonce(&k, &[1u8; 12], "hunter2").unwrap(), a);
}

#[test]
fn sealing_is_aes_gcm_behind_the_nonce_in_base64() {
    let nonce = [7u8; 12];
    let text = encrypt_with_nonce(&key(), &nonce, "hunter2").unwrap();
    assert_eq!(text, sealed_by_hand(&key_bytes(), &nonce, b"hunter2"));
    let raw = STANDARD.decode(&text).unwrap();
    assert_eq!(raw.len(), 12 + 7 + 16);
    assert_eq!(&raw[..12], &nonce);
}

#[test]
fn opening_reads_what_was_sealed_elsewhere() {
    let nonce = [9u8; 12];
    let text = sealed_by_hand(&key_bytes(), &nonce, "geheim".as_bytes());
    assert_eq!(decrypt(&key(), &text), Ok("geheim".to_string()));
}

#[test]
fn a_nonce_of_another_length_is_refused() {
    assert_eq!(encrypt_with_nonce(&key(), &[1u8; 11], "x"), Err(CryptoError::BadNonceLength));
    assert_eq!(encrypt_with_nonce(&key(), &[1u8; 13], "x"), Err(CryptoError::BadNonceLength));
}

#[test]
fn text_that_is_not_base64_is_malformed() {
    assert_eq!(decrypt(&key(), "not base64 at all!"), Err(CryptoError::Malformed));
    assert_eq!(decrypt(&key(), "abc"), Err(CryptoError::Malformed));
}

#[test]
fn fewer_bytes_than_a_nonce_are_too_short() {
    assert_eq!(decrypt(&key(), ""), Err(CryptoError::TooShort));
    assert_eq!(decrypt(&key(), &STANDARD.encode([1u8; 11])), Err(CryptoError::TooShort));
}

#[test]
fn a_nonce_with_too_little_behind_it_is_rejected() {
    assert_eq!(decrypt(&key(), &STANDARD.encode([1u8; 12])), Err(CryptoError::Rejected));
    assert_eq!(decrypt(&key(), &STANDARD.encode([1u8; 27])), Err(CryptoError::Rejected));
}

#[test]
fn a_changed_byte_is_rejected() {
    let k = key();
    let text = encrypt_with_nonce(&k, &[3u8; 12], "hunter2").unwrap();
    let mut raw = STANDARD.decode(&text).unwrap();
    let last = raw.len() - 1;
    raw[last] ^= 1;
    assert_eq!(decrypt(&k, &STANDARD.encode(&raw)), Err(CryptoError::Rejected));
    raw[last] ^= 1;
    raw[0] ^= 1;
    assert_eq!(decrypt(&k, &STANDARD.encode(&raw)), Err(CryptoError::Rejected));
}

#[test]
fn another_key_is_rejected() {
    let text = encrypt(&key(), "hunter2").unwrap();
    let other = KeyMaterial::from_bytes(vec![0xAA; 32]).ok().unwrap();
    assert_eq!(decrypt(&other, &text), Err(CryptoError::Rejected));
}

#[test]
fn opened_bytes_that_are_not_utf8_are_not_text() {
    let text = sealed_by_hand(&key_bytes(), &[5u8; 12], &[0xFF, 0xFE, 0x00]);
    assert_eq!(decrypt(&key(), &text), Err(CryptoError::NotText));
    assert_eq!(plaintext_text(vec![0xC3]), Err(CryptoError::NotText));
    assert_eq!(plaintext_text(vec![0xC3, 0xA4]), Ok("ä".to_string()));
    assert_eq!(plaintext_text(Vec::new()), Ok(String::new()));
}

#[test]
fn a_frame_is_the_nonce_then_the_sealed_bytes() {
    assert_eq!(frame(&[1, 2], &[3, 4, 5]), vec![1, 2, 3, 4, 5]);
    assert_eq!(frame(&[], &[]), Vec::<u8>::new());
    let raw: Vec<u8> = (0u8..20).collect();
    let (nonce, sealed) = split_frame(&raw).unwrap();
    assert_eq!(nonce, &raw[..12]);
    assert_eq!(sealed, &raw[12..]);
    let (nonce, sealed) = split_frame(&raw[..12]).unwrap();
    assert_eq!(nonce.len(), 12);
    assert!(sealed.is_empty());
    assert_eq!(split_frame(&raw[..11]), Err(CryptoError::TooShort));
}

#[test]
fn a_frame_opens_without_its_text_form() {
    let k = key();
    let text = encrypt_with_nonce(&k, &[4u8; 12], "secret").unwrap();
    let raw = STANDARD.decode(text).unwrap();
    assert_eq!(open_frame(&k, &raw), Ok("secret".to_string()));
    assert_eq!(open_frame(&k, &raw[..5]), Err(CryptoError::TooShort));
    assert_eq!(open_frame(&k, &raw[..27]), Err(CryptoError::Rejected));
}

#[test]
fn key_material_is_thirty_two_bytes() {
    assert_eq!(KEY_LEN, 32);
    assert_eq!(NONCE_LEN, 12);
    assert_eq!(KeyMaterial::from_bytes(vec![0; 31]).err(), Some(CryptoError::BadKeyLength));
    assert_eq!(KeyMaterial::from_bytes(vec![0; 33]).err(), Some(CryptoError::BadKeyLength));
    assert_eq!(KeyMaterial::from_bytes(Vec::new()).err(), Some(CryptoError::BadKeyLength));
    assert_eq!(key().as_bytes(), key_bytes().as_slice());
}

#[test]
fn fresh_keys_are_thirty_two_bytes_and_differ() {
    let a = KeyMaterial::generate();
    let b = KeyMaterial::generate();
    assert_eq!(a.as_bytes().len(), 32);
    assert_eq!(b.as_bytes().len(), 32);
    assert_ne!(a.as_bytes(), b.as_bytes());
}

#[test]
fn the_key_file_holds_the_key_in_base64() {
    let text = key().encode();
    assert_eq!(text, STANDARD.encode(key_bytes()));
    assert_eq!(text.len(), 44);
    let back = KeyMaterial::decode(&text).ok().unwrap();
    assert_eq!(back.as_bytes(), key_bytes().as_slice());
}

#[test]
fn the_key_file_may_end_in_a_newline() {
    let text = format!("  {}\n", STANDARD.encode(key_bytes()));
    let back = KeyMaterial::decode(&text).ok().unwrap();
    assert_eq!(back.as_bytes(), key_bytes().as_slice());
}

#[test]
fn a_bad_key_file_is_refused() {
    assert_eq!(KeyMaterial::decode("***").err(), Some(CryptoError::Malformed));
    assert_eq!(
        KeyMaterial::decode(&STANDARD.encode([1u8; 16])).err(),
        Some(CryptoError::BadKeyLength)
    );
    assert_eq!(KeyMaterial::decode("").err(), Some(CryptoError::BadKeyLength));
}

#[test]
fn a_stored_key_is_read_and_not_written() {
    let stored = STANDARD.encode(key_bytes());
    let (k, write) = get_or_create_key(Some(&stored)).ok().unwrap();
    assert_eq!(k.as_bytes(), key_bytes().as_slice());
    assert_eq!(write, None);
    assert_eq!(get_or_create_key(Some("?")).err(), Some(CryptoError::Malformed));
}

#[test]
fn a_missing_key_is_made_and_written() {
    let (k, write) = get_or_create_key(None).ok().unwrap();
    let text = write.unwrap();
    assert_eq!(text, STANDARD.encode(k.as_bytes()));
    let (again, write_again) = get_or_create_key(Some(&text)).ok().unwrap();
    assert_eq!(again.as_bytes(), k.as_bytes());
    assert_eq!(write_again, None);
}
