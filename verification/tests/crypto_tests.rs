use chacha20poly1305::aead::{Aead, KeyInit};
use flight_mesh::crypto::{decrypt_in_place, encrypt_in_place, encrypt_decrypt_round_trip, TAG_SIZE};
use flight_mesh::packets::SECTION_SIZE;

fn patterned(len: usize) -> Vec<u8> {
    (0..len).map(|i| (i % 251) as u8).collect()
}

const KEY: [u8; 32] = [0x42u8; 32];
const NONCE: [u8; 12] = [9u8; 12];

#[test]
fn encrypt_appends_tag_and_transforms_data() {
    let plain = patterned(128);
    let mut buf = plain.clone();
    encrypt_in_place(&KEY, &NONCE, &mut buf);
    assert_eq!(buf.len(), plain.len() + TAG_SIZE);
    assert_ne!(&buf[..plain.len()], plain.as_slice());
}

#[test]
fn decrypt_recovers_exactly_what_was_encrypted() {
    for len in [0usize, 1, 64, 4096, SECTION_SIZE * 4] {
        let plain = patterned(len);
        let mut buf = plain.clone();
        encrypt_in_place(&KEY, &NONCE, &mut buf);
        assert!(decrypt_in_place(&KEY, &NONCE, &mut buf));
        assert_eq!(buf, plain);
    }
}

#[test]
fn round_trip_law_holds_on_concrete_data() {
    let plain = patterned(2048);
    let mut buf = plain.clone();
    assert!(encrypt_decrypt_round_trip(&KEY, &NONCE, &mut buf));
    assert_eq!(buf, plain);
}

#[test]
fn decrypt_with_different_key_fails_and_keeps_ciphertext() {
    let plain = patterned(256);
    let mut buf = plain.clone();
    encrypt_in_place(&KEY, &NONCE, &mut buf);
    let sealed = buf.clone();
    let mut other_key = KEY;
    other_key[0] ^= 0x01;
    assert!(!decrypt_in_place(&other_key, &NONCE, &mut buf));
    assert_eq!(buf, sealed);
    assert_ne!(buf, plain);
}

#[test]
fn decrypt_with_different_nonce_fails() {
    let plain = patterned(256);
    let mut buf = plain.clone();
    encrypt_in_place(&KEY, &NONCE, &mut buf);
    let mut other_nonce = NONCE;
    other_nonce[11] ^= 0x80;
    assert!(!decrypt_in_place(&KEY, &other_nonce, &mut buf));
}

#[test]
fn decrypt_rejects_any_single_bit_flip() {
    let plain = patterned(96);
    let mut sealed = plain.clone();
    encrypt_in_place(&KEY, &NONCE, &mut sealed);
    for byte in 0..sealed.len() {
        for bit in 0..8 {
            let mut buf = sealed.clone();
            buf[byte] ^= 1u8 << bit;
            assert!(!decrypt_in_place(&KEY, &NONCE, &mut buf));
            assert_ne!(buf, plain);
        }
    }
}

#[test]
fn decrypt_rejects_buffer_shorter_than_tag() {
    let mut buf = vec![1u8, 2, 3];
    assert!(!decrypt_in_place(&KEY, &NONCE, &mut buf));
    assert_eq!(buf, vec![1u8, 2, 3]);
}

#[test]
fn ciphertext_decrypts_with_chacha20poly1305_crate() {
    let plain = patterned(512);
    let mut buf = plain.clone();
    encrypt_in_place(&KEY, &NONCE, &mut buf);
    let cipher = chacha20poly1305::ChaCha20Poly1305::new((&KEY).into());
    let opened = cipher
        .decrypt((&NONCE).into(), buf.as_slice())
        .expect("library ciphertext must be a valid chacha20poly1305 sealing");
    assert_eq!(opened, plain);
}
