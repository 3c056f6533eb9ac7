use ed25519_dalek::Signer;
use flight_mesh::handshake::{initiate, respond};
use flight_mesh::identity::Identity;
use rand_chacha::ChaCha8Rng;
use rand_core::SeedableRng;

fn two_identities(seed: u64) -> (Identity, Identity, ChaCha8Rng) {
    let mut rng = ChaCha8Rng::seed_from_u64(seed);
    let a = Identity::generate(&mut rng);
    let b = Identity::generate(&mut rng);
    (a, b, rng)
}

#[test]
fn handshake_key_agreement() {
    let (a, b, mut rng) = two_identities(0x1234_5678);
    let hr = initiate(&a, b.kx_public(), &mut rng);
    let resp = respond(&b, &hr.eph_pubkey, &hr.signature, &a.public_key());
    assert_eq!(resp, Some(hr.session_key));
}

#[test]
fn handshake_keys_differ_between_runs() {
    let (a, b, mut rng) = two_identities(1);
    let hr1 = initiate(&a, b.kx_public(), &mut rng);
    let hr2 = initiate(&a, b.kx_public(), &mut rng);
    assert_ne!(hr1.eph_pubkey, hr2.eph_pubkey);
    assert_ne!(hr1.session_key, hr2.session_key);
}

#[test]
fn respond_rejects_signature_flipped_in_any_single_bit() {
    let (a, b, mut rng) = two_identities(7);
    let hr = initiate(&a, b.kx_public(), &mut rng);
    for byte in 0..64 {
        for bit in 0..8 {
            let mut sig = hr.signature;
            sig[byte] ^= 1u8 << bit;
            let resp = respond(&b, &hr.eph_pubkey, &sig, &a.public_key());
            assert_eq!(resp, None);
        }
    }
}

#[test]
fn respond_rejects_unrelated_certificate() {
    let (a, b, mut rng) = two_identities(11);
    let unrelated = Identity::generate(&mut rng);
    let hr = initiate(&a, b.kx_public(), &mut rng);
    let resp = respond(&b, &hr.eph_pubkey, &hr.signature, &unrelated.public_key());
    assert_eq!(resp, None);
}

#[test]
fn respond_rejects_altered_ephemeral_key() {
    let (a, b, mut rng) = two_identities(13);
    let hr = initiate(&a, b.kx_public(), &mut rng);
    let mut eph = hr.eph_pubkey;
    eph[0] ^= 0x01;
    let resp = respond(&b, &eph, &hr.signature, &a.public_key());
    assert_eq!(resp, None);
}

#[test]
fn diffie_hellman_is_symmetric() {
    let (a, b, _rng) = two_identities(17);
    let ab = a.diffie_hellman(b.kx_public());
    let ba = b.diffie_hellman(a.kx_public());
    assert_eq!(ab, ba);
}

#[test]
fn session_key_is_domain_separated_blake3_of_shared_secret() {
    let (a, b, mut rng) = two_identities(19);
    let hr = initiate(&a, b.kx_public(), &mut rng);
    let resp = respond(&b, &hr.eph_pubkey, &hr.signature, &a.public_key())
        .expect("valid handshake must yield a session key");
    // The responder derives from its long-term secret and the ephemeral key.
    let shared = b.diffie_hellman(&hr.eph_pubkey);
    assert_eq!(resp, blake3::derive_key("flight-guard-ai", &shared));
}

#[test]
fn sign_then_verify_accepts_and_rejects_changes() {
    let mut rng = ChaCha8Rng::seed_from_u64(23);
    let id = Identity::generate(&mut rng);
    let msg = b"telemetry frame 0042";
    let sig = id.sign(msg);
    assert!(Identity::verify(&id.public_key(), msg, &sig));
    assert!(!Identity::verify(&id.public_key(), b"telemetry frame 0043", &sig));
    let mut bad = sig;
    bad[17] ^= 0x40;
    assert!(!Identity::verify(&id.public_key(), msg, &bad));
}

#[test]
fn verify_agrees_with_ed25519_crate() {
    let signing_key = ed25519_dalek::SigningKey::from_bytes(&[7u8; 32]);
    let cert = signing_key.verifying_key().to_bytes();
    let msg = b"externally produced signature";
    let sig = signing_key.sign(msg).to_bytes();
    assert!(Identity::verify(&cert, msg, &sig));
    assert!(!Identity::verify(&cert, b"another message", &sig));
}

#[test]
fn verify_rejects_invalid_certificate_encoding() {
    let mut rng = ChaCha8Rng::seed_from_u64(29);
    let id = Identity::generate(&mut rng);
    let msg = b"frame";
    let sig = id.sign(msg);
    // Not a valid ed25519 point encoding.
    let bad_cert = [0xffu8; 32];
    assert!(!Identity::verify(&bad_cert, msg, &sig));
}
