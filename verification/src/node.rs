//! Minimal session lifecycle composing the other components: generate an
//! identity, derive a session key by handshake, then build, digest, encrypt
//! and serialize packets for the transport.

use crate::crypto::encrypt_in_place;
use crate::crypto::sealed;
use crate::handshake;
use crate::handshake::session_key_of;
use crate::identity::Identity;
use crate::identity::dh_shared;
use crate::packets::DataBody;
use crate::packets::DataPacket;
use crate::packets::DataRelayHeader;
use crate::packets::MessageType;
use crate::packets::SECTION_SIZE;
use crate::packets::append_body_bytes;
use crate::packets::append_bytes;
use crate::packets::append_path_bytes;
use crate::packets::body_bytes;
use crate::packets::digest_input;
use crate::packets::digest_of;
use crate::packets::lemma_path_bytes_len;
use crate::packets::path_bytes;
use crate::packets::push_u64_be;
use crate::packets::spec_u64_be_bytes;
use crate::radio::Radio;
use vstd::prelude::*;

verus! {

broadcast use vstd::array::group_array_axioms;

/// A byte string of `n` zeroes.
pub open spec fn zero_bytes(n: nat) -> Seq<u8> {
    Seq::new(n, |i: int| 0u8)
}

/// The serialized frame of a data-relay packet whose body was sealed under
/// the given key and nonce: the message-type tag, the big-endian timestamp,
/// the 32-byte digest, the relay path, then the four body sections encrypted
/// together with the authentication tag appended.
pub open spec fn packet_frame_bytes(p: DataPacket, key: Seq<u8>, nonce: Seq<u8>) -> Seq<u8> {
    seq![MessageType::DataRelay.spec_tag()] + spec_u64_be_bytes(p.header.timestamp_utc)
        + p.header.payload_hash@ + path_bytes(p.header.relay_path@) + sealed(
        key,
        nonce,
        body_bytes(p.body),
    )
}

/// Serialize one packet for transmission: header in the clear, body encrypted
/// in place under the session key, as one unit.
pub fn serialize_packet(p: &DataPacket, key: &[u8; 32], nonce: &[u8; 12]) -> (f: Vec<u8>)
    requires
        p.wf(),
    ensures
        f@ == packet_frame_bytes(*p, key@, nonce@),
{
    let mut body: Vec<u8> = Vec::new();
    append_body_bytes(&mut body, &p.body);
    encrypt_in_place(key, nonce, &mut body);
    let mut f: Vec<u8> = Vec::new();
    f.push(MessageType::DataRelay.tag());
    push_u64_be(&mut f, p.header.timestamp_utc);
    append_bytes(&mut f, p.header.payload_hash.as_slice());
    proof {
        lemma_path_bytes_len(p.header.relay_path@);
    }
    append_path_bytes(&mut f, &p.header.relay_path);
    append_bytes(&mut f, body.as_slice());
    proof {
        assert(f@ =~= packet_frame_bytes(*p, key@, nonce@));
    }
    f
}

/// The frame that `build_dummy_frame` produces: a data-relay packet with
/// timestamp zero, an empty relay path and a zero-filled body, its digest
/// bound into the header, the body sealed under the key with the zero nonce.
pub open spec fn dummy_frame_bytes(key: Seq<u8>) -> Seq<u8> {
    seq![MessageType::DataRelay.spec_tag()] + spec_u64_be_bytes(0) + digest_of(
        spec_u64_be_bytes(0) + zero_bytes((4 * SECTION_SIZE) as nat),
    ) + sealed(key, zero_bytes(12), zero_bytes((4 * SECTION_SIZE) as nat))
}

/// Build the demonstration packet and serialize it under the given session
/// key. The zero nonce is a placeholder for a per-session nonce scheme; nonce
/// uniqueness per key is the caller's obligation.
pub fn build_dummy_frame(key: &[u8; 32]) -> (f: Vec<u8>)
    ensures
        f@ == dummy_frame_bytes(key@),
{
    let mut pkt = DataPacket {
        header: DataRelayHeader {
            timestamp_utc: 0,
            payload_hash: [0u8; 32],
            relay_path: Vec::new(),
        },
        body: DataBody::default(),
    };
    pkt.header.payload_hash = pkt.calc_hash();
    let nonce = [0u8; 12];
    let f = serialize_packet(&pkt, key, &nonce);
    proof {
        assert(body_bytes(pkt.body) =~= zero_bytes((4 * SECTION_SIZE) as nat));
        assert(digest_input(pkt) =~= spec_u64_be_bytes(0) + zero_bytes((4 * SECTION_SIZE) as nat));
        assert(nonce@ =~= zero_bytes(12));
        assert(f@ =~= dummy_frame_bytes(key@));
    }
    f
}

/// A node: one identity, one negotiated session key, and the transport
/// handle. The session key and identity are exclusively owned here; callers
/// must serialise access to a node.
pub struct Node<R: Radio> {
    radio: R,
    rng: rand_chacha::ChaCha8Rng,
    identity: Identity,
    session_key: [u8; 32],
}

impl<R: Radio> Node<R> {
    /// The node's identity.
    pub closed spec fn spec_identity(self) -> Identity {
        self.identity
    }

    /// The node's current session key.
    pub closed spec fn spec_session_key(self) -> Seq<u8> {
        self.session_key@
    }

    /// The identity's public halves match its private halves.
    pub open spec fn wf(self) -> bool {
        self.spec_identity().wf()
    }

    /// Construct a node: generate a fresh identity with the supplied
    /// generator and negotiate a session key, the derived key of an ephemeral
    /// exchange against a key-exchange public key. For demonstration that peer
    /// key is the node's own; a deployed system derives one session key per
    /// established peer instead.
    pub fn new(radio: R, rng: rand_chacha::ChaCha8Rng) -> (n: Node<R>)
        ensures
            n.wf(),
            exists|eph: Seq<u8>|
                n.spec_session_key() == session_key_of(
                    dh_shared(eph, n.spec_identity().spec_kx_public()),
                ),
    {
        let mut rng = rng;
        let identity = Identity::generate(&mut rng);
        let peer_pubkey = *identity.kx_public();
        let hs = handshake::initiate(&identity, &peer_pubkey, &mut rng);
        let n = Node { radio, rng, identity, session_key: hs.session_key };
        proof {
            let eph = choose|e: Seq<u8>|
                hs.eph_pubkey@ == crate::identity::dh_public(e) && hs.session_key@
                    == session_key_of(dh_shared(e, peer_pubkey@));
            assert(n.spec_session_key() == session_key_of(
                dh_shared(eph, n.spec_identity().spec_kx_public()),
            ));
        }
        n
    }

    /// Build the demonstration data packet — empty relay path, zero-filled
    /// body, digest bound into the header — and hand its serialized frame to
    /// the transport as one unit. `build_dummy_frame` fixes every byte of that
    /// frame as a function of the session key.
    pub fn send_dummy(&mut self)
        requires
            old(self).wf(),
        ensures
            final(self).wf(),
            final(self).spec_identity() == old(self).spec_identity(),
            final(self).spec_session_key() == old(self).spec_session_key(),
    {
        let frame = build_dummy_frame(&self.session_key);
        self.radio.send(frame.as_slice());
    }
}

} // verus!
