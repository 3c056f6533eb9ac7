//! Authenticated encryption of fixed-capacity buffers under a session key,
//! using ChaCha20-Poly1305. Encryption appends a 16-byte authentication tag;
//! decryption verifies the tag first and rejects tampered or corrupted
//! ciphertext without producing plaintext. Nonce uniqueness per key is the
//! caller's obligation: this component keeps no nonce history.

use chacha20poly1305::aead::AeadInPlace;
use chacha20poly1305::aead::KeyInit;
use crate::packets::SECTION_SIZE;
use vstd::prelude::*;

verus! {

/// Length in bytes of the authentication tag appended to every ciphertext.
pub const TAG_SIZE: usize = 16;

/// What ChaCha20-Poly1305 makes of a key, a nonce and a plaintext: the
/// keystream-encrypted bytes followed by the 16-byte authentication tag, a
/// function of the three arguments alone.
pub uninterp spec fn sealed(key: Seq<u8>, nonce: Seq<u8>, plain: Seq<u8>) -> Seq<u8>;

/// Encrypt the buffer in place and append the authentication tag.
///
/// Relies on chacha20poly1305::ChaCha20Poly1305::encrypt_in_place: the buffer
/// becomes the keystream-encrypted bytes followed by the 16-byte Poly1305 tag,
/// a function of key, nonce and plaintext alone; within the capacity bound the
/// call cannot fail.
#[verifier::external_body]
pub fn encrypt_in_place(key: &[u8; 32], nonce: &[u8; 12], buf: &mut Vec<u8>)
    requires
        old(buf)@.len() <= SECTION_SIZE * 4,
    ensures
        final(buf)@ == sealed(key@, nonce@, old(buf)@),
        final(buf)@.len() == old(buf)@.len() + TAG_SIZE,
{
    let cipher = chacha20poly1305::ChaCha20Poly1305::new(chacha20poly1305::Key::from_slice(key));
    let nonce = chacha20poly1305::Nonce::from_slice(nonce);
    let _ = cipher.encrypt_in_place(nonce, b"", buf);
}

/// Attempt authenticated decryption in place. On success the buffer holds the
/// recovered plaintext, the tag removed; on tag-verification failure it
/// returns `false` and leaves the buffer unchanged.
///
/// Relies on chacha20poly1305::ChaCha20Poly1305::decrypt_in_place: it succeeds
/// exactly on the buffers that encryption under the same key and nonce can
/// produce — the Poly1305 tag over the ciphertext must match its last 16 bytes
/// — and then inverts the keystream, recovering the unique plaintext; on any
/// mismatch it returns an error before touching the buffer.
#[verifier::external_body]
pub fn decrypt_in_place(key: &[u8; 32], nonce: &[u8; 12], buf: &mut Vec<u8>) -> (r: bool)
    requires
        old(buf)@.len() <= SECTION_SIZE * 4 + TAG_SIZE,
    ensures
        r == exists|plain: Seq<u8>| old(buf)@ == sealed(key@, nonce@, plain),
        r ==> forall|plain: Seq<u8>|
            old(buf)@ == sealed(key@, nonce@, plain) ==> final(buf)@ == plain,
        r ==> final(buf)@.len() + TAG_SIZE == old(buf)@.len(),
        !r ==> final(buf)@ == old(buf)@,
{
    let cipher = chacha20poly1305::ChaCha20Poly1305::new(chacha20poly1305::Key::from_slice(key));
    let nonce = chacha20poly1305::Nonce::from_slice(nonce);
    cipher.decrypt_in_place(nonce, b"", buf).is_ok()
}

/// Law: decrypting under the key and nonce used to encrypt recovers the
/// original buffer contents exactly, for any buffer within the fixed capacity,
/// and the decryption is accepted.
pub fn encrypt_decrypt_round_trip(key: &[u8; 32], nonce: &[u8; 12], buf: &mut Vec<u8>) -> (ok:
    bool)
    requires
        old(buf)@.len() <= SECTION_SIZE * 4,
    ensures
        ok,
        final(buf)@ == old(buf)@,
{
    let ghost original = buf@;
    encrypt_in_place(key, nonce, buf);
    let ghost sealed_state = buf@;
    let ok = decrypt_in_place(key, nonce, buf);
    proof {
        // `original` witnesses that the sealed state is a sealing, so
        // decryption is accepted and recovers it.
        assert(sealed_state == sealed(key@, nonce@, original));
        assert(buf@ == original);
    }
    ok
}

} // verus!
