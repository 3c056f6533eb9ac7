//! Authenticated ephemeral key exchange. The initiator generates a fresh
//! ephemeral x25519 keypair, computes the shared secret with the peer's
//! long-term key-exchange public key, derives the session key through a
//! domain-separated key-derivation function, and signs the ephemeral public
//! key with its long-term signing key. The responder verifies that signature
//! against the initiator's certificate before deriving the same session key
//! from its own long-term secret.

use crate::identity::dh_public;
use crate::identity::dh_public_key;
use crate::identity::dh_shared;
use crate::identity::dh_shared_secret;
use crate::identity::fill_random_32;
use crate::identity::signature_of;
use crate::identity::signature_ok;
use crate::identity::Identity;
use vstd::prelude::*;

verus! {

/// What blake3's key-derivation mode returns for a context string and key
/// material: a 32-byte key that depends on the two arguments alone.
pub uninterp spec fn derived_key(context: Seq<char>, material: Seq<u8>) -> Seq<u8>;

/// The fixed protocol identifier that domain-separates this protocol's session
/// keys from any other use of the same key-derivation function.
pub open spec fn kdf_context() -> Seq<char> {
    "flight-guard-ai"@
}

/// The session key derived from a shared secret.
pub open spec fn session_key_of(shared: Seq<u8>) -> Seq<u8> {
    derived_key(kdf_context(), shared)
}

/// Relies on blake3::derive_key: derives a 32-byte key from a context string
/// and key material, a function of the two arguments alone.
#[verifier::external_body]
fn blake3_derive_key(context: &str, material: &[u8; 32]) -> (r: [u8; 32])
    ensures
        r@ == derived_key(context@, material@),
{
    blake3::derive_key(context, material)
}

/// What one handshake attempt produces on the initiator's side: the derived
/// session key (kept local), and the ephemeral public key and signature that
/// are transmitted to the responder.
pub struct HandshakeResult {
    pub session_key: [u8; 32],
    pub eph_pubkey: [u8; 32],
    pub signature: [u8; 64],
}

/// Everything `initiate` promises of its result: the signature covers the
/// ephemeral public key and verifies under the initiator's certificate, and
/// the session key is the derived key of the ephemeral exchange — stated both
/// through the ephemeral secret and, for any peer secret matching the public
/// key the initiator used, through that peer's side of the exchange.
pub open spec fn initiate_post(id: Identity, peer_pubkey: Seq<u8>, r: HandshakeResult) -> bool {
    &&& r.signature@ == signature_of(id.spec_signing_key(), r.eph_pubkey@)
    &&& signature_ok(id.spec_cert(), r.eph_pubkey@, r.signature@)
    &&& exists|eph: Seq<u8>|
        r.eph_pubkey@ == dh_public(eph) && r.session_key@ == session_key_of(
            dh_shared(eph, peer_pubkey),
        )
    &&& forall|peer_secret: Seq<u8>|
        peer_pubkey == dh_public(peer_secret) ==> r.session_key@ == session_key_of(
            dh_shared(peer_secret, r.eph_pubkey@),
        )
}

/// Perform the initiator's side of the exchange against a peer's long-term
/// key-exchange public key. The ephemeral keypair is fresh on every call and
/// never reused.
pub fn initiate(id: &Identity, peer_pubkey: &[u8; 32], rng: &mut rand_chacha::ChaCha8Rng) -> (r:
    HandshakeResult)
    requires
        id.wf(),
    ensures
        initiate_post(*id, peer_pubkey@, r),
{
    let eph_secret = fill_random_32(rng);
    let eph_public = dh_public_key(&eph_secret);
    let shared = dh_shared_secret(&eph_secret, peer_pubkey);
    let session_key = blake3_derive_key("flight-guard-ai", &shared);
    let signature = id.sign(eph_public.as_slice());
    let r = HandshakeResult { session_key, eph_pubkey: eph_public, signature };
    proof {
        assert(r.eph_pubkey@ == dh_public(eph_secret@) && r.session_key@ == session_key_of(
            dh_shared(eph_secret@, peer_pubkey@),
        ));
    }
    r
}

/// Everything `respond` promises of its result: a session key comes back
/// exactly when the signature verifies over the claimed ephemeral key against
/// the peer's certificate, and it is then the derived key of the responder's
/// side of the exchange.
pub open spec fn respond_post(
    id: Identity,
    peer_eph_pubkey: Seq<u8>,
    signature: Seq<u8>,
    peer_cert: Seq<u8>,
    r: Option<[u8; 32]>,
) -> bool {
    &&& r.is_some() == signature_ok(peer_cert, peer_eph_pubkey, signature)
    &&& (r matches Some(k) ==> k@ == session_key_of(dh_shared(id.spec_kx_secret(), peer_eph_pubkey)))
}

/// Respond to a handshake initiated by a peer: verify the signature over the
/// claimed ephemeral public key against the peer's certificate, and only on
/// success derive the session key. Any verification failure yields no session,
/// silently — no key is produced and no error distinguishes the causes.
pub fn respond(
    id: &Identity,
    peer_eph_pubkey: &[u8; 32],
    signature: &[u8; 64],
    peer_cert: &[u8; 32],
) -> (r: Option<[u8; 32]>)
    ensures
        respond_post(*id, peer_eph_pubkey@, signature@, peer_cert@, r),
{
    if !Identity::verify(peer_cert, peer_eph_pubkey.as_slice(), signature) {
        return None;
    }
    let shared = id.diffie_hellman(peer_eph_pubkey);
    Some(blake3_derive_key("flight-guard-ai", &shared))
}

/// Law: when a responder is handed the initiator's handshake output unaltered
/// — the ephemeral public key and signature produced against the responder's
/// own key-exchange public key, checked against the initiator's certificate —
/// it accepts, and its session key is bit-identical to the initiator's.
pub proof fn lemma_handshake_key_agreement(
    a: Identity,
    b: Identity,
    hr: HandshakeResult,
    resp: Option<[u8; 32]>,
)
    requires
        a.wf(),
        b.wf(),
        initiate_post(a, b.spec_kx_public(), hr),
        respond_post(b, hr.eph_pubkey@, hr.signature@, a.spec_cert(), resp),
    ensures
        resp matches Some(k) && k@ == hr.session_key@,
{
    assert(signature_ok(a.spec_cert(), hr.eph_pubkey@, hr.signature@));
    assert(resp.is_some());
    assert(b.spec_kx_public() == dh_public(b.spec_kx_secret()));
    assert(hr.session_key@ == session_key_of(dh_shared(b.spec_kx_secret(), hr.eph_pubkey@)));
}

} // verus!
