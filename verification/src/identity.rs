//! Long-term cryptographic identity of a node: an ed25519 signing keypair,
//! whose public half is the node's certificate, and an x25519 key-exchange
//! keypair. The private halves never leave the node; only the certificate and
//! the key-exchange public key are ever transmitted.

use ed25519_dalek::Signer;
use ed25519_dalek::Verifier;
use rand_core::RngCore;
use vstd::prelude::*;

verus! {

#[verifier::external_type_specification]
#[verifier::external_body]
pub struct ExChaCha8Rng(rand_chacha::ChaCha8Rng);

/// What the x25519 public key derived from a 32-byte secret is (scalar
/// multiplication of the clamped secret with the curve base point).
pub uninterp spec fn dh_public(secret: Seq<u8>) -> Seq<u8>;

/// What the x25519 shared secret of a 32-byte secret and a peer public key is
/// (scalar multiplication of the clamped secret with the peer's point).
pub uninterp spec fn dh_shared(secret: Seq<u8>, peer_public: Seq<u8>) -> Seq<u8>;

/// What the ed25519 verifying key derived from a 32-byte signing secret is.
pub uninterp spec fn signing_public(secret: Seq<u8>) -> Seq<u8>;

/// What the ed25519 signature of a message under a 32-byte signing secret is;
/// ed25519 signing is deterministic, so the signature depends on the secret
/// and the message alone.
pub uninterp spec fn signature_of(secret: Seq<u8>, msg: Seq<u8>) -> Seq<u8>;

/// Whether a 64-byte signature verifies over a message against a 32-byte
/// certificate; false when the certificate is not a valid ed25519 key
/// encoding, or the signature does not match.
pub uninterp spec fn signature_ok(cert: Seq<u8>, msg: Seq<u8>, sig: Seq<u8>) -> bool;

/// Relies on rand_core::RngCore::fill_bytes on rand_chacha::ChaCha8Rng: draws
/// 32 bytes from the generator. Nothing is promised of a random value.
#[verifier::external_body]
pub(crate) fn fill_random_32(rng: &mut rand_chacha::ChaCha8Rng) -> (r: [u8; 32]) {
    let mut out = [0u8; 32];
    rng.fill_bytes(&mut out);
    out
}

/// Relies on x25519_dalek: `PublicKey::from(&StaticSecret)` computes the
/// public key of a secret by clamped base-point multiplication, a function of
/// the secret bytes alone.
#[verifier::external_body]
pub(crate) fn dh_public_key(secret: &[u8; 32]) -> (r: [u8; 32])
    ensures
        r@ == dh_public(secret@),
{
    let secret = x25519_dalek::StaticSecret::from(*secret);
    x25519_dalek::PublicKey::from(&secret).to_bytes()
}

/// Relies on x25519_dalek: `StaticSecret::diffie_hellman` computes the shared
/// secret by clamped scalar multiplication, a function of the two byte strings
/// alone; by the commutativity of scalar multiplication on Curve25519
/// (RFC 7748), both parties of an exchange compute the same value.
#[verifier::external_body]
pub(crate) fn dh_shared_secret(secret: &[u8; 32], peer_public: &[u8; 32]) -> (r: [u8; 32])
    ensures
        r@ == dh_shared(secret@, peer_public@),
        forall|other: Seq<u8>|
            peer_public@ == dh_public(other) ==> r@ == dh_shared(other, dh_public(secret@)),
{
    let secret = x25519_dalek::StaticSecret::from(*secret);
    let peer = x25519_dalek::PublicKey::from(*peer_public);
    secret.diffie_hellman(&peer).to_bytes()
}

/// Relies on ed25519_dalek: `SigningKey::from_bytes` derives the verifying key
/// of a signing secret, a function of the secret bytes alone.
#[verifier::external_body]
pub(crate) fn signing_public_key(secret: &[u8; 32]) -> (r: [u8; 32])
    ensures
        r@ == signing_public(secret@),
{
    ed25519_dalek::SigningKey::from_bytes(secret).verifying_key().to_bytes()
}

/// A node's long-term identity. The signing secret and the key-exchange
/// secret are private to this type and never leave it; `cert` and
/// `x25519_public` are the two values distributed to peers.
pub struct Identity {
    signing_key: [u8; 32],
    cert: [u8; 32],
    x25519_secret: [u8; 32],
    x25519_public: [u8; 32],
}

impl Identity {
    /// The bytes of the private signing key.
    pub closed spec fn spec_signing_key(self) -> Seq<u8> {
        self.signing_key@
    }

    /// The bytes of the private key-exchange key.
    pub closed spec fn spec_kx_secret(self) -> Seq<u8> {
        self.x25519_secret@
    }

    /// The bytes of the certificate, the public signing key.
    pub closed spec fn spec_cert(self) -> Seq<u8> {
        self.cert@
    }

    /// The bytes of the public key-exchange key.
    pub closed spec fn spec_kx_public(self) -> Seq<u8> {
        self.x25519_public@
    }

    /// The public halves match the private halves.
    pub open spec fn wf(self) -> bool {
        &&& self.spec_cert() == signing_public(self.spec_signing_key())
        &&& self.spec_kx_public() == dh_public(self.spec_kx_secret())
    }

    /// Generate a fresh identity from a cryptographically secure random
    /// source: both secrets are drawn from the generator and the public
    /// halves derived from them.
    pub fn generate(rng: &mut rand_chacha::ChaCha8Rng) -> (id: Identity)
        ensures
            id.wf(),
    {
        let signing_key = fill_random_32(rng);
        let cert = signing_public_key(&signing_key);
        let x25519_secret = fill_random_32(rng);
        let x25519_public = dh_public_key(&x25519_secret);
        Identity { signing_key, cert, x25519_secret, x25519_public }
    }

    /// Sign a message with the long-term signing key.
    ///
    /// Relies on ed25519_dalek: `SigningKey::sign` is deterministic ed25519
    /// signing (RFC 8032), a function of the secret and the message alone, and
    /// `VerifyingKey::verify` accepts every signature that `sign` produced
    /// under the matching verifying key.
    #[verifier::external_body]
    pub fn sign(&self, msg: &[u8]) -> (sig: [u8; 64])
        ensures
            sig@ == signature_of(self.spec_signing_key(), msg@),
            signature_ok(signing_public(self.spec_signing_key()), msg@, sig@),
    {
        let key = ed25519_dalek::SigningKey::from_bytes(&self.signing_key);
        key.sign(msg).to_bytes()
    }

    /// Verify a message and signature against a certificate. Pure: the result
    /// depends on the three byte strings alone, and is `false` on any mismatch
    /// (wrong key, corrupted signature, altered message).
    ///
    /// Relies on ed25519_dalek: `VerifyingKey::from_bytes` accepts exactly the
    /// valid ed25519 key encodings, and `VerifyingKey::verify` is
    /// deterministic ed25519 verification (RFC 8032).
    #[verifier::external_body]
    pub fn verify(cert: &[u8; 32], msg: &[u8], sig: &[u8; 64]) -> (r: bool)
        ensures
            r == signature_ok(cert@, msg@, sig@),
    {
        let signature = ed25519_dalek::Signature::from_bytes(sig);
        match ed25519_dalek::VerifyingKey::from_bytes(cert) {
            Ok(key) => key.verify(msg, &signature).is_ok(),
            Err(_) => false,
        }
    }

    /// The long-term signing public key, for certificate distribution.
    pub fn public_key(&self) -> (r: [u8; 32])
        ensures
            r@ == self.spec_cert(),
    {
        self.cert
    }

    /// The long-term key-exchange public key, for distribution to peers.
    pub fn kx_public(&self) -> (r: &[u8; 32])
        ensures
            r@ == self.spec_kx_public(),
    {
        &self.x25519_public
    }

    /// Diffie-Hellman between the node's long-term key-exchange secret and a
    /// peer's public key. The raw shared secret must never be used directly as
    /// a traffic key; it is only an ingredient of derived session keys.
    pub fn diffie_hellman(&self, peer: &[u8; 32]) -> (r: [u8; 32])
        ensures
            r@ == dh_shared(self.spec_kx_secret(), peer@),
            forall|other: Seq<u8>|
                peer@ == dh_public(other) ==> r@ == dh_shared(other, dh_public(self.spec_kx_secret())),
    {
        dh_shared_secret(&self.x25519_secret, peer)
    }
}

} // verus!
