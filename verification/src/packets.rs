//! Wire-level shapes of the mesh protocol: control messages, the data-relay
//! packet with its fixed-shape multi-section body, and the integrity digest
//! that binds a packet's header and body together.

use vstd::prelude::*;

verus! {

broadcast use vstd::array::group_array_axioms;

/// Size in bytes of each body section. All four sections are always present
/// and always exactly this size, so an observer cannot tell from packet shape
/// which sections carry real data.
pub const SECTION_SIZE: usize = 4096;

/// A relay path holds at most this many entries; a packet that would need one
/// more hop must be rejected for forwarding rather than silently truncated.
pub const MAX_RELAY_HOPS: usize = 8;

/// One-byte message-type tag that precedes every message on the wire.
#[derive(Clone, Copy)]
pub enum MessageType {
    Ping,
    Pong,
    DataRelay,
    Ack,
}

impl MessageType {
    /// The wire value of this message type's tag byte.
    pub open spec fn spec_tag(self) -> u8 {
        match self {
            MessageType::Ping => 0x01,
            MessageType::Pong => 0x02,
            MessageType::DataRelay => 0x03,
            MessageType::Ack => 0x04,
        }
    }

    /// Serialise the message type as its tag byte.
    pub fn tag(self) -> (t: u8)
        ensures
            t == self.spec_tag(),
    {
        match self {
            MessageType::Ping => 0x01,
            MessageType::Pong => 0x02,
            MessageType::DataRelay => 0x03,
            MessageType::Ack => 0x04,
        }
    }
}

/// Discovery / liveness probe. `Pong` answers carry the same shape.
pub struct Ping {
    pub aircraft_id: [u8; 32],
    pub nonce: [u8; 32],
    pub timestamp_utc: u64,
    pub signature: [u8; 64],
}

/// Answer to a [`Ping`].
pub type Pong = Ping;

/// Acknowledgement of a data-relay packet, identified by its digest.
pub struct Ack {
    pub payload_hash: [u8; 32],
    pub time_of_flight_ms: u32,
    pub timestamp_utc: u64,
    pub signature: [u8; 64],
}

/// One hop of the relay path: which aircraft forwarded the packet, and at
/// which position along the path.
pub struct RelayPathEntry {
    pub aircraft_id: [u8; 32],
    pub hop_number: u16,
}

/// Hop numbers strictly increase along a relay path; the routing layer
/// maintains this by numbering each forwarding hop above the last.
pub open spec fn hops_strictly_increasing(entries: Seq<RelayPathEntry>) -> bool {
    forall|i: int, j: int|
        0 <= i < j < entries.len() ==> entries[i].hop_number < entries[j].hop_number
}

/// The four fixed-size body sections. `audio_enc` and `log_enc` carry real
/// payload; the two decoy sections exist only to keep the shape uniform.
pub struct DataBody {
    pub audio_enc: [u8; SECTION_SIZE],
    pub log_enc: [u8; SECTION_SIZE],
    pub decoy1_enc: [u8; SECTION_SIZE],
    pub decoy2_enc: [u8; SECTION_SIZE],
}

impl DataBody {
    /// Every byte of every section is zero.
    pub open spec fn is_all_zero(self) -> bool {
        &&& forall|i: int| 0 <= i < SECTION_SIZE ==> self.audio_enc@[i] == 0u8
        &&& forall|i: int| 0 <= i < SECTION_SIZE ==> self.log_enc@[i] == 0u8
        &&& forall|i: int| 0 <= i < SECTION_SIZE ==> self.decoy1_enc@[i] == 0u8
        &&& forall|i: int| 0 <= i < SECTION_SIZE ==> self.decoy2_enc@[i] == 0u8
    }
}

impl Default for DataBody {
    /// A body whose four sections are zero-filled.
    fn default() -> (d: Self)
        ensures
            d.is_all_zero(),
    {
        DataBody {
            audio_enc: [0u8; SECTION_SIZE],
            log_enc: [0u8; SECTION_SIZE],
            decoy1_enc: [0u8; SECTION_SIZE],
            decoy2_enc: [0u8; SECTION_SIZE],
        }
    }
}

/// Header of a data-relay packet: when it was built, the digest that binds
/// header and body, and the ordered path of hops taken so far.
pub struct DataRelayHeader {
    pub timestamp_utc: u64,
    pub payload_hash: [u8; 32],
    pub relay_path: Vec<RelayPathEntry>,
}

impl DataRelayHeader {
    /// The relay path never exceeds its fixed capacity.
    pub open spec fn wf(self) -> bool {
        self.relay_path@.len() <= MAX_RELAY_HOPS
    }
}

/// A data-relay packet: header plus body, transmitted as one unit once the
/// body has been encrypted in place.
pub struct DataPacket {
    pub header: DataRelayHeader,
    pub body: DataBody,
}

impl DataPacket {
    /// The relay path is within its fixed capacity.
    pub open spec fn wf(self) -> bool {
        self.header.wf()
    }

    /// Record one forwarding hop. Returns `false`, and leaves the packet
    /// unchanged, when the relay path is already at its fixed capacity.
    pub fn push_hop(&mut self, entry: RelayPathEntry) -> (ok: bool)
        requires
            old(self).wf(),
        ensures
            final(self).wf(),
            ok == (old(self).header.relay_path@.len() < MAX_RELAY_HOPS),
            ok ==> final(self).header.relay_path@ == old(self).header.relay_path@.push(entry),
            ok ==> final(self).header.timestamp_utc == old(self).header.timestamp_utc
                && final(self).header.payload_hash == old(self).header.payload_hash
                && final(self).body == old(self).body,
            !ok ==> *final(self) == *old(self),
    {
        if self.header.relay_path.len() < MAX_RELAY_HOPS {
            self.header.relay_path.push(entry);
            true
        } else {
            false
        }
    }
}

/// Law: recording a hop whose number exceeds the last entry's keeps hop
/// numbers strictly increasing along the path; with [`DataPacket::push_hop`],
/// which appends exactly the given entry, a forwarding layer that numbers each
/// hop above the previous one preserves the path invariant.
pub proof fn lemma_push_hop_keeps_hops_increasing(
    entries: Seq<RelayPathEntry>,
    entry: RelayPathEntry,
)
    requires
        hops_strictly_increasing(entries),
        entries.len() == 0 || entries.last().hop_number < entry.hop_number,
    ensures
        hops_strictly_increasing(entries.push(entry)),
{
    let pushed = entries.push(entry);
    assert forall|i: int, j: int|
        0 <= i < j < pushed.len() implies pushed[i].hop_number < pushed[j].hop_number by {
        if j == entries.len() {
            if i < entries.len() - 1 {
                assert(entries[i].hop_number < entries[entries.len() - 1].hop_number);
            }
        }
    }
}

/// Big-endian bytes of a 64-bit integer, most significant first.
pub open spec fn spec_u64_be_bytes(x: u64) -> Seq<u8> {
    seq![
        ((x >> 56) & 0xff) as u8,
        ((x >> 48) & 0xff) as u8,
        ((x >> 40) & 0xff) as u8,
        ((x >> 32) & 0xff) as u8,
        ((x >> 24) & 0xff) as u8,
        ((x >> 16) & 0xff) as u8,
        ((x >> 8) & 0xff) as u8,
        (x & 0xff) as u8,
    ]
}

/// Big-endian bytes of a 16-bit integer, most significant first.
pub open spec fn spec_u16_be_bytes(x: u16) -> Seq<u8> {
    seq![((x >> 8) & 0xff) as u8, (x & 0xff) as u8]
}

/// Append the big-endian bytes of `x` to `out`.
pub fn push_u64_be(out: &mut Vec<u8>, x: u64)
    ensures
        final(out)@ == old(out)@ + spec_u64_be_bytes(x),
{
    assert((x >> 56) & 0xff < 256 && (x >> 48) & 0xff < 256 && (x >> 40) & 0xff < 256
        && (x >> 32) & 0xff < 256 && (x >> 24) & 0xff < 256 && (x >> 16) & 0xff < 256
        && (x >> 8) & 0xff < 256 && x & 0xff < 256) by (bit_vector);
    out.push(((x >> 56) & 0xff) as u8);
    out.push(((x >> 48) & 0xff) as u8);
    out.push(((x >> 40) & 0xff) as u8);
    out.push(((x >> 32) & 0xff) as u8);
    out.push(((x >> 24) & 0xff) as u8);
    out.push(((x >> 16) & 0xff) as u8);
    out.push(((x >> 8) & 0xff) as u8);
    out.push((x & 0xff) as u8);
    assert(out@ =~= old(out)@ + spec_u64_be_bytes(x));
}

/// Append the big-endian bytes of `x` to `out`.
pub fn push_u16_be(out: &mut Vec<u8>, x: u16)
    ensures
        final(out)@ == old(out)@ + spec_u16_be_bytes(x),
{
    assert((x >> 8) & 0xff < 256 && x & 0xff < 256) by (bit_vector);
    out.push(((x >> 8) & 0xff) as u8);
    out.push((x & 0xff) as u8);
    assert(out@ =~= old(out)@ + spec_u16_be_bytes(x));
}

/// Append a byte slice to `out`.
pub fn append_bytes(out: &mut Vec<u8>, src: &[u8])
    requires
        old(out)@.len() + src@.len() <= usize::MAX,
    ensures
        final(out)@ == old(out)@ + src@,
{
    out.extend_from_slice(src);
    assert(out@ =~= old(out)@ + src@);
}

/// What the blake3 hash of a byte string is. Stating the algorithm itself is
/// out of reach here; the digest is a fixed function of the input bytes alone.
pub uninterp spec fn digest_of(input: Seq<u8>) -> Seq<u8>;

/// Relies on blake3::hash: a 32-byte digest that depends on the input bytes
/// alone.
#[verifier::external_body]
fn blake3_hash(input: &Vec<u8>) -> (h: [u8; 32])
    ensures
        h@ == digest_of(input@),
{
    *blake3::hash(input.as_slice()).as_bytes()
}

/// Wire encoding of one relay-path entry: the 32-byte aircraft id, then the
/// hop number in big-endian.
pub open spec fn entry_bytes(e: RelayPathEntry) -> Seq<u8> {
    e.aircraft_id@ + spec_u16_be_bytes(e.hop_number)
}

/// Wire encoding of a relay path: each entry's bytes, in path order.
pub open spec fn path_bytes(entries: Seq<RelayPathEntry>) -> Seq<u8>
    decreases entries.len(),
{
    if entries.len() == 0 {
        Seq::empty()
    } else {
        path_bytes(entries.drop_last()) + entry_bytes(entries.last())
    }
}

/// Wire encoding of a body: the four sections in fixed order.
pub open spec fn body_bytes(b: DataBody) -> Seq<u8> {
    b.audio_enc@ + b.log_enc@ + b.decoy1_enc@ + b.decoy2_enc@
}

/// The exact byte string over which a packet's digest is computed, in fixed
/// order: timestamp, relay path, then the four body sections. Reordering any
/// field changes this string and so the digest.
pub open spec fn digest_input(p: DataPacket) -> Seq<u8> {
    spec_u64_be_bytes(p.header.timestamp_utc) + path_bytes(p.header.relay_path@)
        + p.body.audio_enc@ + p.body.log_enc@ + p.body.decoy1_enc@ + p.body.decoy2_enc@
}

/// Append a relay path's wire encoding to `out`.
pub fn append_path_bytes(out: &mut Vec<u8>, entries: &Vec<RelayPathEntry>)
    requires
        entries@.len() <= MAX_RELAY_HOPS,
        old(out)@.len() + 34 * MAX_RELAY_HOPS <= usize::MAX,
    ensures
        final(out)@ == old(out)@ + path_bytes(entries@),
{
    let ghost prefix = out@;
    let mut i: usize = 0;
    while i < entries.len()
        invariant
            i <= entries@.len(),
            entries@.len() <= MAX_RELAY_HOPS,
            prefix.len() + 34 * MAX_RELAY_HOPS <= usize::MAX,
            out@.len() == prefix.len() + i * 34,
            out@ == prefix + path_bytes(entries@.take(i as int)),
        decreases entries@.len() - i,
    {
        let entry = &entries[i];
        append_bytes(out, entry.aircraft_id.as_slice());
        push_u16_be(out, entry.hop_number);
        proof {
            lemma_path_bytes_take(entries@, i as int);
            assert(out@ =~= prefix + path_bytes(entries@.take(i + 1)));
        }
        i += 1;
    }
    proof {
        assert(entries@.take(entries@.len() as int) =~= entries@);
    }
}

/// Append a body's wire encoding to `out`.
pub fn append_body_bytes(out: &mut Vec<u8>, body: &DataBody)
    requires
        old(out)@.len() + 4 * SECTION_SIZE <= usize::MAX,
    ensures
        final(out)@ == old(out)@ + body_bytes(*body),
{
    append_bytes(out, body.audio_enc.as_slice());
    append_bytes(out, body.log_enc.as_slice());
    append_bytes(out, body.decoy1_enc.as_slice());
    append_bytes(out, body.decoy2_enc.as_slice());
    assert(out@ =~= old(out)@ + body_bytes(*body));
}

/// Appending one entry to a path appends that entry's bytes to the encoding.
proof fn lemma_path_bytes_take(entries: Seq<RelayPathEntry>, i: int)
    requires
        0 <= i < entries.len(),
    ensures
        path_bytes(entries.take(i + 1)) == path_bytes(entries.take(i)) + entry_bytes(entries[i]),
{
    assert(entries.take(i + 1).drop_last() =~= entries.take(i));
    assert(entries.take(i + 1).last() == entries[i]);
}

/// Two concatenations are equal and the left parts have the same length, so
/// both parts coincide.
proof fn lemma_concat_split<T>(a1: Seq<T>, b1: Seq<T>, a2: Seq<T>, b2: Seq<T>)
    requires
        a1 + b1 == a2 + b2,
        a1.len() == a2.len(),
    ensures
        a1 == a2,
        b1 == b2,
{
    assert((a1 + b1).len() == a1.len() + b1.len());
    assert((a2 + b2).len() == a2.len() + b2.len());
    assert(b1.len() == b2.len());
    assert forall|i: int| 0 <= i < a1.len() implies a1[i] == a2[i] by {
        assert((a1 + b1)[i] == a1[i]);
        assert((a2 + b2)[i] == a2[i]);
    }
    assert(a1 =~= a2);
    assert forall|i: int| 0 <= i < b1.len() implies b1[i] == b2[i] by {
        assert((a1 + b1)[i + a1.len()] == b1[i]);
        assert((a2 + b2)[i + a2.len()] == b2[i]);
    }
    assert(b1 =~= b2);
}

/// Two concatenations are equal and the right parts have the same length, so
/// both parts coincide.
proof fn lemma_concat_split_right<T>(a1: Seq<T>, b1: Seq<T>, a2: Seq<T>, b2: Seq<T>)
    requires
        a1 + b1 == a2 + b2,
        b1.len() == b2.len(),
    ensures
        a1 == a2,
        b1 == b2,
{
    assert((a1 + b1).len() == a1.len() + b1.len());
    assert((a2 + b2).len() == a2.len() + b2.len());
    lemma_concat_split(a1, b1, a2, b2);
}

/// Distinct 64-bit values have distinct big-endian encodings.
proof fn lemma_u64_be_bytes_injective(x: u64, y: u64)
    requires
        spec_u64_be_bytes(x) == spec_u64_be_bytes(y),
    ensures
        x == y,
{
    assert(spec_u64_be_bytes(x)[0] == spec_u64_be_bytes(y)[0]
        && spec_u64_be_bytes(x)[1] == spec_u64_be_bytes(y)[1]
        && spec_u64_be_bytes(x)[2] == spec_u64_be_bytes(y)[2]
        && spec_u64_be_bytes(x)[3] == spec_u64_be_bytes(y)[3]
        && spec_u64_be_bytes(x)[4] == spec_u64_be_bytes(y)[4]
        && spec_u64_be_bytes(x)[5] == spec_u64_be_bytes(y)[5]
        && spec_u64_be_bytes(x)[6] == spec_u64_be_bytes(y)[6]
        && spec_u64_be_bytes(x)[7] == spec_u64_be_bytes(y)[7]);
    assert(x == y) by (bit_vector)
        requires
            ((x >> 56) & 0xff) as u8 == ((y >> 56) & 0xff) as u8,
            ((x >> 48) & 0xff) as u8 == ((y >> 48) & 0xff) as u8,
            ((x >> 40) & 0xff) as u8 == ((y >> 40) & 0xff) as u8,
            ((x >> 32) & 0xff) as u8 == ((y >> 32) & 0xff) as u8,
            ((x >> 24) & 0xff) as u8 == ((y >> 24) & 0xff) as u8,
            ((x >> 16) & 0xff) as u8 == ((y >> 16) & 0xff) as u8,
            ((x >> 8) & 0xff) as u8 == ((y >> 8) & 0xff) as u8,
            (x & 0xff) as u8 == (y & 0xff) as u8,
    ;
}

/// Distinct 16-bit values have distinct big-endian encodings.
proof fn lemma_u16_be_bytes_injective(x: u16, y: u16)
    requires
        spec_u16_be_bytes(x) == spec_u16_be_bytes(y),
    ensures
        x == y,
{
    assert(spec_u16_be_bytes(x)[0] == spec_u16_be_bytes(y)[0]
        && spec_u16_be_bytes(x)[1] == spec_u16_be_bytes(y)[1]);
    assert(x == y) by (bit_vector)
        requires
            ((x >> 8) & 0xff) as u8 == ((y >> 8) & 0xff) as u8,
            (x & 0xff) as u8 == (y & 0xff) as u8,
    ;
}

/// A relay path's encoding is 34 bytes per entry.
pub proof fn lemma_path_bytes_len(entries: Seq<RelayPathEntry>)
    ensures
        path_bytes(entries).len() == 34 * entries.len(),
    decreases entries.len(),
{
    if entries.len() > 0 {
        lemma_path_bytes_len(entries.drop_last());
    }
}

/// Distinct relay-path entries have distinct encodings.
proof fn lemma_entry_bytes_injective(e1: RelayPathEntry, e2: RelayPathEntry)
    requires
        entry_bytes(e1) == entry_bytes(e2),
    ensures
        e1 == e2,
{
    lemma_concat_split(
        e1.aircraft_id@,
        spec_u16_be_bytes(e1.hop_number),
        e2.aircraft_id@,
        spec_u16_be_bytes(e2.hop_number),
    );
    assert(e1.aircraft_id =~= e2.aircraft_id);
    lemma_u16_be_bytes_injective(e1.hop_number, e2.hop_number);
}

/// Distinct relay paths of equal length have distinct encodings.
proof fn lemma_path_bytes_injective(s1: Seq<RelayPathEntry>, s2: Seq<RelayPathEntry>)
    requires
        s1.len() == s2.len(),
        path_bytes(s1) == path_bytes(s2),
    ensures
        s1 == s2,
    decreases s1.len(),
{
    if s1.len() == 0 {
        assert(s1 =~= s2);
    } else {
        lemma_concat_split_right(
            path_bytes(s1.drop_last()),
            entry_bytes(s1.last()),
            path_bytes(s2.drop_last()),
            entry_bytes(s2.last()),
        );
        lemma_entry_bytes_injective(s1.last(), s2.last());
        lemma_path_bytes_injective(s1.drop_last(), s2.drop_last());
        assert forall|i: int| 0 <= i < s1.len() implies s1[i] == s2[i] by {
            if i < s1.len() - 1 {
                assert(s1.drop_last()[i] == s1[i]);
                assert(s2.drop_last()[i] == s2[i]);
            }
        }
        assert(s1 =~= s2);
    }
}

/// Law: the digest input separates packets — two well-formed packets with
/// equal digest inputs agree on timestamp, relay path and every body section.
/// So changing any one of those fields changes the hashed byte string, and
/// only a hash collision could leave the digest itself unchanged.
pub proof fn lemma_digest_input_injective(p1: DataPacket, p2: DataPacket)
    requires
        p1.wf(),
        p2.wf(),
        digest_input(p1) == digest_input(p2),
    ensures
        p1.header.timestamp_utc == p2.header.timestamp_utc,
        p1.header.relay_path@ == p2.header.relay_path@,
        p1.body.audio_enc == p2.body.audio_enc,
        p1.body.log_enc == p2.body.log_enc,
        p1.body.decoy1_enc == p2.body.decoy1_enc,
        p1.body.decoy2_enc == p2.body.decoy2_enc,
{
    let ts1 = spec_u64_be_bytes(p1.header.timestamp_utc);
    let ts2 = spec_u64_be_bytes(p2.header.timestamp_utc);
    let pb1 = path_bytes(p1.header.relay_path@);
    let pb2 = path_bytes(p2.header.relay_path@);
    lemma_concat_split_right(
        ts1 + pb1 + p1.body.audio_enc@ + p1.body.log_enc@ + p1.body.decoy1_enc@,
        p1.body.decoy2_enc@,
        ts2 + pb2 + p2.body.audio_enc@ + p2.body.log_enc@ + p2.body.decoy1_enc@,
        p2.body.decoy2_enc@,
    );
    lemma_concat_split_right(
        ts1 + pb1 + p1.body.audio_enc@ + p1.body.log_enc@,
        p1.body.decoy1_enc@,
        ts2 + pb2 + p2.body.audio_enc@ + p2.body.log_enc@,
        p2.body.decoy1_enc@,
    );
    lemma_concat_split_right(
        ts1 + pb1 + p1.body.audio_enc@,
        p1.body.log_enc@,
        ts2 + pb2 + p2.body.audio_enc@,
        p2.body.log_enc@,
    );
    lemma_concat_split_right(ts1 + pb1, p1.body.audio_enc@, ts2 + pb2, p2.body.audio_enc@);
    lemma_concat_split(ts1, pb1, ts2, pb2);
    lemma_u64_be_bytes_injective(p1.header.timestamp_utc, p2.header.timestamp_utc);
    lemma_path_bytes_len(p1.header.relay_path@);
    lemma_path_bytes_len(p2.header.relay_path@);
    lemma_path_bytes_injective(p1.header.relay_path@, p2.header.relay_path@);
    assert(p1.body.audio_enc =~= p2.body.audio_enc);
    assert(p1.body.log_enc =~= p2.body.log_enc);
    assert(p1.body.decoy1_enc =~= p2.body.decoy1_enc);
    assert(p1.body.decoy2_enc =~= p2.body.decoy2_enc);
}

/// Law: the digest is a pure function of the packet's timestamp, relay path
/// and body — two packets that agree on those fields have identical digests,
/// whatever their stored `payload_hash` holds.
pub proof fn lemma_digest_deterministic(p1: DataPacket, p2: DataPacket)
    requires
        p1.header.timestamp_utc == p2.header.timestamp_utc,
        p1.header.relay_path@ == p2.header.relay_path@,
        p1.body == p2.body,
    ensures
        digest_of(digest_input(p1)) == digest_of(digest_input(p2)),
{
}

/// Compare two 32-byte strings.
pub fn bytes32_eq(a: &[u8; 32], b: &[u8; 32]) -> (r: bool)
    ensures
        r == (a@ == b@),
{
    let mut i: usize = 0;
    while i < 32
        invariant
            i <= 32,
            forall|j: int| 0 <= j < i ==> a@[j] == b@[j],
        decreases 32 - i,
    {
        if a[i] != b[i] {
            return false;
        }
        i += 1;
    }
    assert(a@ =~= b@);
    true
}

impl DataPacket {
    /// Digest of this packet: the blake3 hash over, in fixed order, the
    /// big-endian timestamp, each relay-path entry's aircraft id and hop
    /// number in path order, and the four body sections. The digest is a
    /// function of those fields alone, so identical packets always produce
    /// identical digests.
    pub fn calc_hash(&self) -> (h: [u8; 32])
        requires
            self.wf(),
        ensures
            h@ == digest_of(digest_input(*self)),
    {
        let mut input: Vec<u8> = Vec::new();
        push_u64_be(&mut input, self.header.timestamp_utc);
        append_path_bytes(&mut input, &self.header.relay_path);
        proof {
            lemma_path_bytes_len(self.header.relay_path@);
        }
        append_bytes(&mut input, self.body.audio_enc.as_slice());
        append_bytes(&mut input, self.body.log_enc.as_slice());
        append_bytes(&mut input, self.body.decoy1_enc.as_slice());
        append_bytes(&mut input, self.body.decoy2_enc.as_slice());
        let h = blake3_hash(&input);
        proof {
            assert(input@ =~= digest_input(*self));
        }
        h
    }

    /// Recompute the digest and compare it with the stored one. Returns
    /// `false` exactly when the stored digest does not match a freshly
    /// computed one; every relay hop checks this before forwarding, and the
    /// final recipient before decrypting.
    pub fn verify_digest(&self) -> (r: bool)
        requires
            self.wf(),
        ensures
            r == (self.header.payload_hash@ == digest_of(digest_input(*self))),
    {
        let fresh = self.calc_hash();
        bytes32_eq(&self.header.payload_hash, &fresh)
    }
}

} // verus!
