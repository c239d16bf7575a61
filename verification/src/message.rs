//! Types associated with messages traded between the system processes:
//! the fixed wire header, framed wire messages, and the application
//! level system messages.

use vstd::prelude::*;

use crate::communication::NodeId;
use crate::crypto::{digest_of, sign_of, verifies, Digest, KeyPair, PublicKey, Signature};
use crate::cst::RecoveryState;
use crate::error::{Error, ErrorKind};
use crate::ordering::SeqNo;

verus! {

broadcast use crate::crypto::lemma_digest_view_len, crate::crypto::lemma_signature_view_len;

use vstd::bytes::{
    spec_u32_from_le_bytes,
    spec_u32_to_le_bytes,
    spec_u64_from_le_bytes,
    spec_u64_to_le_bytes,
    u32_from_le_bytes,
    u32_to_le_bytes,
    u64_from_le_bytes,
    u64_to_le_bytes,
};

/// A header that is sent before a message in transit in the wire.
///
/// A fixed amount of `Header::LENGTH` bytes are read before a message is
/// read; they carry the protocol version, the origin and destiny of the
/// message, its payload length, the payload digest, and a signature over
/// the header fields.
#[derive(Debug, Copy, Clone, Eq, PartialEq)]
pub struct Header {
    /// The protocol version.
    pub version: u32,
    /// Origin of the message.
    pub from: u32,
    /// Destiny of the message.
    pub to: u32,
    /// A random number, making the digest of equal payloads distinct.
    pub nonce: u64,
    /// Length of the payload in bytes.
    pub length: u64,
    /// The SHA-256 digest of the payload; zeroed during the bootstrap
    /// handshake, whose messages carry no payload.
    pub digest: Digest,
    /// Signature over the remaining fields of the header.
    pub signature: Signature,
}

/// The little-endian wire encoding of every header field but the
/// signature, in wire order; it is also the material whose digest gets
/// signed.
pub open spec fn spec_signed_part(h: Header) -> Seq<u8> {
    spec_u32_to_le_bytes(h.version) + spec_u32_to_le_bytes(h.from) + spec_u32_to_le_bytes(h.to)
        + spec_u64_to_le_bytes(h.nonce) + spec_u64_to_le_bytes(h.length) + h.digest@
}

/// The little-endian wire encoding of a header: the signed part followed
/// by the signature bytes.
pub open spec fn spec_serialize(h: Header) -> Seq<u8> {
    spec_signed_part(h) + h.signature@
}

/// The digest that a header's signature covers.
pub open spec fn spec_sig_material(h: Header) -> Seq<u8> {
    digest_of(spec_signed_part(h))
}

/// The bytes of the digest identifying a message uniquely: the payload
/// digest mixed with the nonce.
pub open spec fn spec_unique_digest_bytes(h: Header) -> Seq<u8> {
    digest_of(h.digest@ + spec_u64_to_le_bytes(h.nonce))
}

/// Whether the fields of `h` read back the header serialized in `bytes`:
/// each field equals the little-endian decoding of its wire location.
pub open spec fn spec_extracts(h: Header, bytes: Seq<u8>) -> bool {
    &&& h.version == spec_u32_from_le_bytes(bytes.subrange(0, 4))
    &&& h.from == spec_u32_from_le_bytes(bytes.subrange(4, 8))
    &&& h.to == spec_u32_from_le_bytes(bytes.subrange(8, 12))
    &&& h.nonce == spec_u64_from_le_bytes(bytes.subrange(12, 20))
    &&& h.length == spec_u64_from_le_bytes(bytes.subrange(20, 28))
    &&& h.digest@ == bytes.subrange(28, 60)
    &&& h.signature@ == bytes.subrange(60, 124)
}

impl Header {
    /// The size of the wire representation of the `Header` in bytes.
    pub const LENGTH: usize = 124;

    /// Reports the protocol version this header was built for.
    pub fn version(&self) -> (r: u32)
        ensures
            r == self.version,
    {
        self.version
    }

    /// The id of the process the message originates from.
    pub fn from(&self) -> (r: NodeId)
        ensures
            r == NodeId(self.from),
    {
        NodeId(self.from)
    }

    /// The id of the process the message is destined to.
    pub fn to(&self) -> (r: NodeId)
        ensures
            r == NodeId(self.to),
    {
        NodeId(self.to)
    }

    /// The nonce mixed into this message's unique digest.
    pub fn nonce(&self) -> (r: u64)
        ensures
            r == self.nonce,
    {
        self.nonce
    }

    /// The digest of the payload following this header.
    pub fn digest(&self) -> (r: &Digest)
        ensures
            r == self.digest,
    {
        &self.digest
    }

    /// The signature over the header fields.
    pub fn signature(&self) -> (r: &Signature)
        ensures
            r == self.signature,
    {
        &self.signature
    }

    /// The length of the payload following this header, as a `usize`.
    pub fn payload_length(&self) -> (r: usize)
        requires
            self.length <= usize::MAX,
        ensures
            r == self.length,
    {
        self.length as usize
    }

    /// A digest identifying this message uniquely: the payload digest
    /// mixed with the nonce.
    pub fn unique_digest(&self) -> (r: Digest)
        ensures
            r@ == spec_unique_digest_bytes(*self),
    {
        let nonce_bytes = u64_to_le_bytes(self.nonce);
        self.digest.entropy(nonce_bytes.as_slice())
    }

    /// The wire bytes of every field but the signature, whose digest the
    /// signature covers.
    fn serialize_signed_part(self) -> (r: Vec<u8>)
        ensures
            r@ == spec_signed_part(self),
            r@.len() == 60,
    {
        proof {
            vstd::bytes::lemma_auto_spec_u32_to_from_le_bytes();
            vstd::bytes::lemma_auto_spec_u64_to_from_le_bytes();
        }
        let mut buf: Vec<u8> = Vec::new();
        let mut part = u32_to_le_bytes(self.version);
        buf.append(&mut part);
        let mut part = u32_to_le_bytes(self.from);
        buf.append(&mut part);
        let mut part = u32_to_le_bytes(self.to);
        buf.append(&mut part);
        let mut part = u64_to_le_bytes(self.nonce);
        buf.append(&mut part);
        let mut part = u64_to_le_bytes(self.length);
        buf.append(&mut part);
        buf.extend_from_slice(self.digest.as_ref());
        proof {
            assert(buf@ =~= spec_signed_part(self));
        }
        buf
    }

    /// The digest that this header's signature covers: the hash of the
    /// wire encoding of every field but the signature.
    pub fn sig_material(&self) -> (r: Digest)
        ensures
            r@ == spec_sig_material(*self),
    {
        let signed = self.serialize_signed_part();
        crate::crypto::hash(signed.as_slice())
    }

    /// The full wire encoding of this header.
    pub fn serialize(self) -> (r: Vec<u8>)
        ensures
            r@ == spec_serialize(self),
            r@.len() == Header::LENGTH,
    {
        let mut buf = self.serialize_signed_part();
        buf.extend_from_slice(self.signature.as_ref());
        proof {
            assert(buf@ =~= spec_serialize(self));
        }
        buf
    }

    /// Serialize a `Header` into a byte buffer of appropriate size,
    /// overwriting its first `LENGTH` bytes; fails, leaving the buffer
    /// untouched, when it is shorter than that.
    pub fn serialize_into(self, buf: &mut Vec<u8>) -> (r: Result<(), Error>)
        ensures
            old(buf)@.len() < Header::LENGTH ==> r is Err
                && r->Err_0.spec_kind() == ErrorKind::CommunicationMessage
                && final(buf)@ == old(buf)@,
            old(buf)@.len() >= Header::LENGTH ==> r is Ok
                && final(buf)@.len() == old(buf)@.len()
                && final(buf)@ =~= spec_serialize(self) + old(buf)@.skip(Header::LENGTH as int),
    {
        if buf.len() < Header::LENGTH {
            return Err(Error::wrapped(ErrorKind::CommunicationMessage,
                "Buffer is too short to serialize into"));
        }
        let bytes = self.serialize();
        let mut i: usize = 0;
        while i < Header::LENGTH
            invariant
                0 <= i <= Header::LENGTH,
                bytes@.len() == Header::LENGTH,
                buf@.len() == old(buf)@.len() >= Header::LENGTH,
                forall|j: int| 0 <= j < i ==> buf@[j] == bytes@[j],
                forall|j: int| i <= j < buf@.len() ==> buf@[j] == old(buf)@[j],
            decreases Header::LENGTH - i,
        {
            let b = bytes[i];
            buf[i] = b;
            i = i + 1;
        }
        Ok(())
    }

    /// Deserialize a `Header` from a byte buffer of appropriate size,
    /// reading its first `LENGTH` bytes; fails when it is shorter than
    /// that.
    pub fn deserialize_from(buf: &[u8]) -> (r: Result<Header, Error>)
        ensures
            buf@.len() < Header::LENGTH ==> r is Err
                && r->Err_0.spec_kind() == ErrorKind::CommunicationMessage,
            buf@.len() >= Header::LENGTH ==> r is Ok && spec_extracts(r->Ok_0, buf@),
    {
        if buf.len() < Header::LENGTH {
            return Err(Error::wrapped(ErrorKind::CommunicationMessage,
                "Buffer is too short to deserialize from"));
        }
        let version = u32_from_le_bytes(vstd::slice::slice_subrange(buf, 0, 4));
        let from = u32_from_le_bytes(vstd::slice::slice_subrange(buf, 4, 8));
        let to = u32_from_le_bytes(vstd::slice::slice_subrange(buf, 8, 12));
        let nonce = u64_from_le_bytes(vstd::slice::slice_subrange(buf, 12, 20));
        let length = u64_from_le_bytes(vstd::slice::slice_subrange(buf, 20, 28));
        let digest = match Digest::from_bytes(vstd::slice::slice_subrange(buf, 28, 60)) {
            Ok(d) => d,
            Err(_) => vstd::pervasive::unreached(),
        };
        let signature = match Signature::from_bytes(vstd::slice::slice_subrange(buf, 60, 124)) {
            Ok(s) => s,
            Err(_) => vstd::pervasive::unreached(),
        };
        proof {
            assert(buf@.subrange(28, 60).subrange(0, 32) =~= buf@.subrange(28, 60));
            assert(buf@.subrange(60, 124).subrange(0, 64) =~= buf@.subrange(60, 124));
        }
        Ok(Header { version, from, to, nonce, length, digest, signature })
    }
}

/// Reading back the serialization of a header recovers the header: any
/// header whose fields decode the wire bytes of `h` is `h` itself, and
/// those bytes are exactly `Header::LENGTH` long.
pub proof fn lemma_header_roundtrip(h: Header, h2: Header)
    requires
        spec_extracts(h2, spec_serialize(h)),
    ensures
        h2 == h,
        spec_serialize(h).len() == Header::LENGTH,
{
    vstd::bytes::lemma_auto_spec_u32_to_from_le_bytes();
    vstd::bytes::lemma_auto_spec_u64_to_from_le_bytes();
    let bytes = spec_serialize(h);
    assert(bytes.subrange(0, 4) =~= spec_u32_to_le_bytes(h.version));
    assert(bytes.subrange(4, 8) =~= spec_u32_to_le_bytes(h.from));
    assert(bytes.subrange(8, 12) =~= spec_u32_to_le_bytes(h.to));
    assert(bytes.subrange(12, 20) =~= spec_u64_to_le_bytes(h.nonce));
    assert(bytes.subrange(20, 28) =~= spec_u64_to_le_bytes(h.length));
    assert(bytes.subrange(28, 60) =~= h.digest@);
    assert(bytes.subrange(60, 124) =~= h.signature@);
    crate::crypto::lemma_digest_view_injective(h2.digest, h.digest);
    crate::crypto::lemma_signature_view_injective(h2.signature, h.signature);
}

/// A message to be sent over the wire. The payload should be a
/// serialized `SystemMessage`, for correctness.
#[derive(Debug)]
pub struct WireMessage<'a> {
    /// The wire header framing `payload`.
    pub header: Header,
    /// The serialized system message the frame carries.
    pub payload: &'a [u8],
}

/// Whether a header and payload form a well-formed frame: current
/// version, a length that matches the payload, and, for messages that
/// carry one, a digest that matches the payload.
pub open spec fn spec_frame_ok(h: Header, payload: Seq<u8>) -> bool {
    &&& h.version == 0
    &&& h.length == payload.len()
    &&& payload.len() > 0 ==> h.digest@ == digest_of(payload)
}

impl<'a> WireMessage<'a> {
    /// The current version of the wire protocol.
    pub const CURRENT_VERSION: u32 = 0;

    /// Constructs a new message to be sent over the wire.
    ///
    /// The digest of the payload, when one is given, is stored in the
    /// header; the bootstrap handshake gives none and the digest bytes
    /// stay zeroed. With a key pair, the header fields are signed;
    /// without one the signature bytes stay zeroed.
    pub fn new(
        from: NodeId,
        to: NodeId,
        payload: &'a [u8],
        nonce: u64,
        digest: Option<Digest>,
        sk: Option<&KeyPair>,
    ) -> (r: WireMessage<'a>)
        ensures
            r.header.version == 0,
            r.header.from == from.0,
            r.header.to == to.0,
            r.header.nonce == nonce,
            r.header.length == payload@.len(),
            r.payload == payload,
            match digest {
                Some(d) => r.header.digest == d,
                None => r.header.digest@ == Seq::new(32, |i: int| 0u8),
            },
            match sk {
                Some(kp) => r.header.signature@
                    == sign_of(kp.spec_seed(), spec_sig_material(r.header)),
                None => r.header.signature@ == Seq::new(64, |i: int| 0u8),
            },
    {
        let digest = match digest {
            Some(d) => d,
            None => Digest::zeroed(),
        };
        let header = Header {
            version: Self::CURRENT_VERSION,
            from: from.0,
            to: to.0,
            nonce,
            length: payload.len() as u64,
            digest,
            signature: Signature::zeroed(),
        };
        let signature = match sk {
            Some(kp) => {
                let material = header.sig_material();
                kp.sign(material.as_ref())
            },
            None => Signature::zeroed(),
        };
        let header = Header { signature, ..header };
        WireMessage { header, payload }
    }

    /// Rebuilds a message received from the wire out of its header and
    /// payload, checking that they form a well-formed frame.
    pub fn from_parts(header: Header, payload: &'a [u8]) -> (r: Result<WireMessage<'a>, Error>)
        ensures
            r is Ok <==> spec_frame_ok(header, payload@),
            r is Ok ==> r->Ok_0.header == header && r->Ok_0.payload == payload,
            r is Err ==> r->Err_0.spec_kind() == ErrorKind::CommunicationMessage,
    {
        let message = WireMessage { header, payload };
        if message.is_valid(None) {
            Ok(message)
        } else {
            Err(Error::wrapped(ErrorKind::CommunicationMessage, "Invalid wire message"))
        }
    }

    /// Retrieve the inner `Header` and payload byte buffer stored
    /// inside the `WireMessage`.
    pub fn into_inner(self) -> (r: (Header, &'a [u8]))
        ensures
            r.0 == self.header,
            r.1 == self.payload,
    {
        (self.header, self.payload)
    }

    /// Returns a reference to the `Header` of the `WireMessage`.
    pub fn header(&self) -> (r: &Header)
        ensures
            r == self.header,
    {
        &self.header
    }

    /// Returns a reference to the payload bytes of the `WireMessage`.
    pub fn payload(&self) -> (r: &'a [u8])
        ensures
            r == self.payload,
    {
        self.payload
    }

    /// Checks for the correctness of the `WireMessage`: the protocol
    /// version, the payload length, the payload digest for messages that
    /// carry one, and, when a public key is given, the signature over
    /// the header fields.
    pub fn is_valid(&self, public_key: Option<&PublicKey>) -> (r: bool)
        ensures
            r == (spec_frame_ok(self.header, self.payload@) && match public_key {
                Some(pk) => verifies(
                    pk@,
                    spec_sig_material(self.header),
                    self.header.signature@,
                ),
                None => true,
            }),
    {
        if self.header.version != Self::CURRENT_VERSION {
            return false;
        }
        if self.payload.len() as u64 != self.header.length {
            return false;
        }
        if self.payload.len() > 0 {
            let digest = crate::crypto::hash(self.payload);
            if !(digest == self.header.digest) {
                return false;
            }
        }
        match public_key {
            Some(pk) => {
                let material = self.header.sig_material();
                pk.verify(material.as_ref(), &self.header.signature)
            },
            None => true,
        }
    }
}

/// The `Message` type encompasses all the messages traded between
/// different tasks in the system; this is the subset of application
/// level kinds, regarding one of the SMR sub-protocols.
///
/// This can be either a `Request` from a client, a `Consensus` message,
/// a `Cst` state transfer message, or a `ViewChange` message.
pub enum SystemMessage<S, O, P> {
    /// A request from a client.
    Request(RequestMessage<O>),
    /// A reply to a client.
    Reply(ReplyMessage<P>),
    /// A message of the consensus sub-protocol.
    Consensus(ConsensusMessage),
    /// A message of the collaborative state transfer sub-protocol.
    Cst(CstMessage<S, O>),
    /// A message of the view change sub-protocol, which is present only
    /// as a skeleton.
    ViewChange,
}

/// Represents a request from a client.
///
/// The `O` type argument symbolizes the client operation to be performed
/// over the replicated state.
pub struct RequestMessage<O> {
    /// The operation the client asks to be applied to the state.
    pub operation: O,
}

impl<O> RequestMessage<O> {
    /// Creates a new `RequestMessage`.
    pub fn new(operation: O) -> (r: Self)
        ensures
            r.operation == operation,
    {
        Self { operation }
    }

    /// Returns a reference to the operation of type `O`.
    pub fn operation(&self) -> (r: &O)
        ensures
            r == self.operation,
    {
        &self.operation
    }

    /// Returns the operation this request carries.
    pub fn into_inner(self) -> (r: O)
        ensures
            r == self.operation,
    {
        self.operation
    }
}

impl<O: Clone> Clone for RequestMessage<O> {
    /// The clone carries a clone of the operation.
    fn clone(&self) -> (res: Self)
        ensures
            vstd::pervasive::cloned::<O>(self.operation, res.operation),
    {
        Self { operation: self.operation.clone() }
    }
}

/// Represents a reply to a client.
///
/// The `P` type argument symbolizes the reply payload the service
/// produced for the client.
pub struct ReplyMessage<P> {
    /// The payload the service produced.
    pub payload: P,
}

impl<P> ReplyMessage<P> {
    /// Creates a new `ReplyMessage`.
    pub fn new(payload: P) -> (r: Self)
        ensures
            r.payload == payload,
    {
        Self { payload }
    }

    /// Returns a reference to the reply payload.
    pub fn payload(&self) -> (r: &P)
        ensures
            r == self.payload,
    {
        &self.payload
    }

    /// Returns the payload this reply carries.
    pub fn into_inner(self) -> (r: P)
        ensures
            r == self.payload,
    {
        self.payload
    }
}

/// Represents a message from the consensus sub-protocol.
///
/// Different types of consensus messages are represented in the
/// `ConsensusMessageKind` type.
pub struct ConsensusMessage {
    /// The consensus instance this message belongs to.
    pub seq: SeqNo,
    /// The view this message was sent in.
    pub view: SeqNo,
    /// The phase this message belongs to, and its payload.
    pub kind: ConsensusMessageKind,
}

/// Represents one of many different consensus stages.
pub enum ConsensusMessageKind {
    /// Pre-prepare a batch of requests, according to the BFT protocol;
    /// the vector is the ordered list of the digests of the requests in
    /// the batch.
    PrePrepare(Vec<Digest>),
    /// Prepare a batch of requests; the digest names the pre-prepare
    /// being voted on.
    Prepare(Digest),
    /// Commit a batch of requests, signaling the system is almost ready
    /// to execute it; the digest names the pre-prepare being committed.
    Commit(Digest),
}

impl ConsensusMessage {
    /// Creates a new `ConsensusMessage` for the consensus instance
    /// `seq`, sent during the view `view`, and of the kind `kind`.
    pub fn new(seq: SeqNo, view: SeqNo, kind: ConsensusMessageKind) -> (r: Self)
        ensures
            r == (ConsensusMessage { seq, view, kind }),
    {
        Self { seq, view, kind }
    }

    /// Returns the sequence number of the consensus instance this
    /// message belongs to.
    pub fn sequence_number(&self) -> (r: SeqNo)
        ensures
            r == self.seq,
    {
        self.seq
    }

    /// Returns the view this message was sent in.
    pub fn view(&self) -> (r: SeqNo)
        ensures
            r == self.view,
    {
        self.view
    }

    /// Returns a reference to the consensus message kind.
    pub fn kind(&self) -> (r: &ConsensusMessageKind)
        ensures
            r == self.kind,
    {
        &self.kind
    }
}

/// Whether two consensus message kinds carry the same content: the same
/// phase, and the same digests in the same order.
pub open spec fn kind_eq(a: ConsensusMessageKind, b: ConsensusMessageKind) -> bool {
    match (a, b) {
        (ConsensusMessageKind::PrePrepare(x), ConsensusMessageKind::PrePrepare(y)) => x@ == y@,
        (ConsensusMessageKind::Prepare(x), ConsensusMessageKind::Prepare(y)) => x == y,
        (ConsensusMessageKind::Commit(x), ConsensusMessageKind::Commit(y)) => x == y,
        _ => false,
    }
}

/// Whether two consensus messages carry the same content.
pub open spec fn cm_eq(a: ConsensusMessage, b: ConsensusMessage) -> bool {
    a.seq == b.seq && a.view == b.view && kind_eq(a.kind, b.kind)
}

impl Clone for ConsensusMessageKind {
    /// The clone is the same message kind with the same digests.
    fn clone(&self) -> (res: Self)
        ensures
            kind_eq(*self, res),
    {
        match self {
            ConsensusMessageKind::PrePrepare(digests) => {
                let mut copy: Vec<Digest> = Vec::new();
                let mut i: usize = 0;
                while i < digests.len()
                    invariant
                        0 <= i <= digests@.len(),
                        copy@ =~= digests@.subrange(0, i as int),
                    decreases digests@.len() - i,
                {
                    copy.push(digests[i]);
                    i = i + 1;
                }
                proof {
                    assert(copy@ =~= digests@);
                }
                ConsensusMessageKind::PrePrepare(copy)
            },
            ConsensusMessageKind::Prepare(digest) => ConsensusMessageKind::Prepare(*digest),
            ConsensusMessageKind::Commit(digest) => ConsensusMessageKind::Commit(*digest),
        }
    }
}

impl Clone for ConsensusMessage {
    /// The clone carries the same content.
    fn clone(&self) -> (res: Self)
        ensures
            cm_eq(*self, res),
    {
        Self { seq: self.seq, view: self.view, kind: self.kind.clone() }
    }
}

/// Represents a message from the collaborative state transfer
/// sub-protocol.
///
/// The different types of state transfer messages are represented in the
/// `CstMessageKind` type.
pub struct CstMessage<S, O> {
    /// The state transfer round this message belongs to.
    pub seq: SeqNo,
    /// What the message asks for or carries.
    pub kind: CstMessageKind<S, O>,
}

/// Represents one of the rounds of the state transfer protocol.
pub enum CstMessageKind<S, O> {
    /// Asks a peer for the sequence number of its latest decided
    /// consensus instance.
    RequestLatestConsensusSeq,
    /// Carries the sequence number of the latest consensus instance the
    /// sender decided.
    ReplyLatestConsensusSeq(SeqNo),
    /// Asks a peer for its recovery state.
    RequestState,
    /// Carries the sender's recovery state.
    ReplyState(RecoveryState<S, O>),
}

impl<S, O> CstMessage<S, O> {
    /// Creates a new `CstMessage` for the state transfer round `seq`,
    /// of the kind `kind`.
    pub fn new(seq: SeqNo, kind: CstMessageKind<S, O>) -> (r: Self)
        ensures
            r.seq == seq,
            r.kind == kind,
    {
        Self { seq, kind }
    }

    /// Returns the sequence number of the state transfer round this
    /// message belongs to.
    pub fn sequence_number(&self) -> (r: SeqNo)
        ensures
            r == self.seq,
    {
        self.seq
    }

    /// Returns a reference to the state transfer message kind.
    pub fn kind(&self) -> (r: &CstMessageKind<S, O>)
        ensures
            r == self.kind,
    {
        &self.kind
    }

    /// Takes the recovery state out of a `ReplyState` message, leaving a
    /// bare `RequestState` kind behind; any other kind stays untouched.
    pub fn take_state(&mut self) -> (r: Option<RecoveryState<S, O>>)
        ensures
            final(self).seq == old(self).seq,
            old(self).kind matches CstMessageKind::ReplyState(rs) ==> r == Some(rs)
                && final(self).kind is RequestState,
            !(old(self).kind is ReplyState) ==> r is None && *final(self) == *old(self),
    {
        let mut kind: CstMessageKind<S, O> = CstMessageKind::RequestState;
        core::mem::swap(&mut self.kind, &mut kind);
        match kind {
            CstMessageKind::ReplyState(state) => Some(state),
            other => {
                self.kind = other;
                None
            },
        }
    }
}

} // verus!
