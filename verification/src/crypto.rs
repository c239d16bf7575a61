//! Cryptographic primitives for hashing and signing messages: SHA-256
//! digests and Ed25519 signatures, backed by `ring`.

use vstd::prelude::*;

use crate::error::{Error, ErrorKind};

verus! {

/// The SHA-256 digest of `data`.
///
/// Stands for what `ring::digest::digest` with SHA-256 returns: 32 bytes,
/// a function of the input data alone.
pub uninterp spec fn digest_of(data: Seq<u8>) -> Seq<u8>;

/// The Ed25519 signature over `msg` by the signing key derived from
/// `seed`.
///
/// Stands for what `ring::signature::Ed25519KeyPair::sign` returns:
/// Ed25519 signing is deterministic, so the signature is a function of
/// the seed and the message alone.
pub uninterp spec fn sign_of(seed: Seq<u8>, msg: Seq<u8>) -> Seq<u8>;

/// Whether `sig` is a valid Ed25519 signature over `msg` under the
/// public key bytes `pk`.
///
/// Stands for what `ring::signature::UnparsedPublicKey::verify` with
/// Ed25519 decides: a function of the three byte strings alone.
pub uninterp spec fn verifies(pk: Seq<u8>, msg: Seq<u8>, sig: Seq<u8>) -> bool;

/// An incremental hashing context.
///
/// Reserved for hashing large payloads piecewise; the protocol core only
/// hashes complete buffers.
pub struct Context;

/// The result of hashing a byte buffer with SHA-256.
#[derive(Debug, Copy, Clone)]
pub struct Digest {
    bytes: [u8; 32],
}

impl View for Digest {
    type V = Seq<u8>;

    closed spec fn view(&self) -> Seq<u8> {
        self.bytes@
    }
}

impl PartialEq for Digest {
    fn eq(&self, other: &Digest) -> (r: bool) {
        let mut i: usize = 0;
        while i < 32
            invariant
                0 <= i <= 32,
                forall|j: int| 0 <= j < i ==> self.bytes@[j] == other.bytes@[j],
            decreases 32 - i,
        {
            if self.bytes[i] != other.bytes[i] {
                proof {
                    assert(self@[i as int] != other@[i as int]);
                }
                return false;
            }
            i = i + 1;
        }
        proof {
            assert(self.bytes@ =~= other.bytes@);
        }
        true
    }
}

impl vstd::std_specs::cmp::PartialEqSpecImpl for Digest {
    open spec fn obeys_eq_spec() -> bool {
        true
    }

    open spec fn eq_spec(&self, other: &Digest) -> bool {
        self@ == other@
    }
}

impl Eq for Digest {}

impl Digest {
    /// The byte length of a SHA-256 digest.
    pub const LENGTH: usize = 32;

    /// Builds a digest from its first `LENGTH` raw bytes; fails when
    /// fewer are given.
    pub fn from_bytes(raw_bytes: &[u8]) -> (r: Result<Digest, Error>)
        ensures
            raw_bytes@.len() >= 32 ==> r is Ok && r->Ok_0@ == raw_bytes@.subrange(0, 32),
            raw_bytes@.len() < 32 ==> r is Err
                && r->Err_0.spec_kind() == ErrorKind::CryptoHashRingSha2,
    {
        if raw_bytes.len() < 32 {
            return Err(Error::wrapped(ErrorKind::CryptoHashRingSha2,
                "Digest has an invalid length"));
        }
        let mut bytes: [u8; 32] = [0u8; 32];
        let mut i: usize = 0;
        while i < 32
            invariant
                0 <= i <= 32,
                raw_bytes@.len() >= 32,
                forall|j: int| 0 <= j < i ==> bytes@[j] == raw_bytes@[j],
            decreases 32 - i,
        {
            bytes[i] = raw_bytes[i];
            i = i + 1;
        }
        proof {
            assert(bytes@ =~= raw_bytes@.subrange(0, 32));
        }
        Ok(Digest { bytes })
    }

    /// The raw bytes of this digest.
    pub fn as_ref(&self) -> (r: &[u8])
        ensures
            r@ == self@,
    {
        self.bytes.as_slice()
    }

    /// The all-zero digest, standing in where no payload digest exists,
    /// as during the bootstrap handshake.
    pub fn zeroed() -> (r: Digest)
        ensures
            r@ == Seq::new(32, |i: int| 0u8),
    {
        let bytes: [u8; 32] = [0u8; 32];
        proof {
            assert(bytes@ =~= Seq::new(32, |i: int| 0u8));
        }
        Digest { bytes }
    }

    /// Hashes this digest together with the given bytes, producing a new
    /// digest that also depends on `bytes` (used to mix a nonce into an
    /// outgoing message's identifier).
    pub fn entropy(&self, bytes: &[u8]) -> (r: Digest)
        ensures
            r@ == digest_of(self@ + bytes@),
    {
        let mut buf: Vec<u8> = Vec::new();
        let mut i: usize = 0;
        while i < 32
            invariant
                0 <= i <= 32,
                buf@ =~= self.bytes@.subrange(0, i as int),
            decreases 32 - i,
        {
            buf.push(self.bytes[i]);
            i = i + 1;
        }
        proof {
            assert(buf@ =~= self@);
        }
        let mut k: usize = 0;
        while k < bytes.len()
            invariant
                0 <= k <= bytes@.len(),
                buf@ =~= self@ + bytes@.subrange(0, k as int),
            decreases bytes@.len() - k,
        {
            buf.push(bytes[k]);
            k = k + 1;
        }
        proof {
            assert(buf@ =~= self@ + bytes@);
        }
        hash(buf.as_slice())
    }
}

/// Computes the SHA-256 digest of `data`.
///
/// Relies on `ring::digest::digest` with SHA-256: the output is 32 bytes
/// and a function of the input data alone.
#[verifier::external_body]
pub(crate) fn hash(data: &[u8]) -> (r: Digest)
    ensures
        r@ == digest_of(data@),
{
    let d = ring::digest::digest(&ring::digest::SHA256, data);
    let mut bytes = [0u8; 32];
    bytes.copy_from_slice(d.as_ref());
    Digest { bytes }
}

/// An Ed25519 signature over a message.
#[derive(Debug, Copy, Clone)]
pub struct Signature {
    bytes: [u8; 64],
}

impl View for Signature {
    type V = Seq<u8>;

    closed spec fn view(&self) -> Seq<u8> {
        self.bytes@
    }
}

impl PartialEq for Signature {
    fn eq(&self, other: &Signature) -> (r: bool) {
        let mut i: usize = 0;
        while i < 64
            invariant
                0 <= i <= 64,
                forall|j: int| 0 <= j < i ==> self.bytes@[j] == other.bytes@[j],
            decreases 64 - i,
        {
            if self.bytes[i] != other.bytes[i] {
                proof {
                    assert(self@[i as int] != other@[i as int]);
                }
                return false;
            }
            i = i + 1;
        }
        proof {
            assert(self.bytes@ =~= other.bytes@);
        }
        true
    }
}

impl vstd::std_specs::cmp::PartialEqSpecImpl for Signature {
    open spec fn obeys_eq_spec() -> bool {
        true
    }

    open spec fn eq_spec(&self, other: &Signature) -> bool {
        self@ == other@
    }
}

impl Eq for Signature {}

impl Signature {
    /// The byte length of an Ed25519 signature.
    pub const LENGTH: usize = 64;

    /// Builds a signature from its first `LENGTH` raw bytes; fails when
    /// fewer are given.
    pub fn from_bytes(raw_bytes: &[u8]) -> (r: Result<Signature, Error>)
        ensures
            raw_bytes@.len() >= 64 ==> r is Ok && r->Ok_0@ == raw_bytes@.subrange(0, 64),
            raw_bytes@.len() < 64 ==> r is Err
                && r->Err_0.spec_kind() == ErrorKind::CryptoSignatureRingEd25519,
    {
        if raw_bytes.len() < 64 {
            return Err(Error::wrapped(ErrorKind::CryptoSignatureRingEd25519,
                "Signature has an invalid length"));
        }
        let mut bytes: [u8; 64] = [0u8; 64];
        let mut i: usize = 0;
        while i < 64
            invariant
                0 <= i <= 64,
                raw_bytes@.len() >= 64,
                forall|j: int| 0 <= j < i ==> bytes@[j] == raw_bytes@[j],
            decreases 64 - i,
        {
            bytes[i] = raw_bytes[i];
            i = i + 1;
        }
        proof {
            assert(bytes@ =~= raw_bytes@.subrange(0, 64));
        }
        Ok(Signature { bytes })
    }

    /// The raw bytes of this signature.
    pub fn as_ref(&self) -> (r: &[u8])
        ensures
            r@ == self@,
    {
        self.bytes.as_slice()
    }

    /// The all-zero signature, standing in for unsigned messages.
    pub fn zeroed() -> (r: Signature)
        ensures
            r@ == Seq::new(64, |i: int| 0u8),
    {
        let bytes: [u8; 64] = [0u8; 64];
        proof {
            assert(bytes@ =~= Seq::new(64, |i: int| 0u8));
        }
        Signature { bytes }
    }
}

/// A digest always views as its 32 bytes.
pub broadcast proof fn lemma_digest_view_len(d: Digest)
    ensures
        (#[trigger] d@).len() == 32,
{
}

/// A signature always views as its 64 bytes.
pub broadcast proof fn lemma_signature_view_len(s: Signature)
    ensures
        (#[trigger] s@).len() == 64,
{
}

/// Two digests over the same bytes are the same digest.
pub proof fn lemma_digest_view_injective(a: Digest, b: Digest)
    ensures
        a@ == b@ ==> a == b,
{
    if a@ == b@ {
        assert(a.bytes =~= b.bytes);
    }
}

/// Two signatures over the same bytes are the same signature.
pub proof fn lemma_signature_view_injective(a: Signature, b: Signature)
    ensures
        a@ == b@ ==> a == b,
{
    if a@ == b@ {
        assert(a.bytes =~= b.bytes);
    }
}

/// The public part of an Ed25519 key pair, as its 32 raw bytes.
#[derive(Debug, Clone)]
pub struct PublicKey {
    bytes: Vec<u8>,
}

impl View for PublicKey {
    type V = Seq<u8>;

    closed spec fn view(&self) -> Seq<u8> {
        self.bytes@
    }
}

impl PublicKey {
    /// The byte length of an Ed25519 public key.
    pub const LENGTH: usize = 32;

    /// Builds a public key from its 32 raw bytes; fails on any other
    /// length.
    pub fn from_bytes(raw_bytes: &[u8]) -> (r: Result<PublicKey, Error>)
        ensures
            raw_bytes@.len() == 32 ==> r is Ok && r->Ok_0@ == raw_bytes@,
            raw_bytes@.len() != 32 ==> r is Err
                && r->Err_0.spec_kind() == ErrorKind::CryptoSignatureRingEd25519,
    {
        if raw_bytes.len() != 32 {
            return Err(Error::wrapped(ErrorKind::CryptoSignatureRingEd25519,
                "Public key has an invalid length"));
        }
        Ok(PublicKey { bytes: vstd::slice::slice_to_vec(raw_bytes) })
    }

    /// Checks that `sig` is a valid signature over `msg` under this
    /// public key.
    ///
    /// Relies on `ring::signature::UnparsedPublicKey::verify` with
    /// Ed25519: whether a signature verifies is a function of the public
    /// key bytes, the message and the signature alone.
    #[verifier::external_body]
    pub fn verify(&self, msg: &[u8], sig: &Signature) -> (r: bool)
        ensures
            r == verifies(self@, msg@, sig@),
    {
        ring::signature::UnparsedPublicKey::new(&ring::signature::ED25519, self.bytes.as_slice())
            .verify(msg, &sig.bytes[..])
            .is_ok()
    }
}

/// The `ring` Ed25519 key pair held inside `KeyPair`.
#[verifier::external_type_specification]
#[verifier::external_body]
pub struct ExEd25519KeyPair(ring::signature::Ed25519KeyPair);

/// An Ed25519 key pair, remembering the seed it was derived from.
pub struct KeyPair {
    seed: Vec<u8>,
    inner: ring::signature::Ed25519KeyPair,
}

impl KeyPair {
    /// The 32-byte seed this key pair was derived from.
    pub closed spec fn spec_seed(&self) -> Seq<u8> {
        self.seed@
    }

    /// Derives a key pair from a 32-byte seed; fails on any other
    /// length.
    ///
    /// Relies on `ring::signature::Ed25519KeyPair::from_seed_unchecked`,
    /// which accepts exactly 32-byte seeds and derives the signing key
    /// from the seed alone.
    #[verifier::external_body]
    pub fn from_bytes(raw_bytes: &[u8]) -> (r: Result<KeyPair, Error>)
        ensures
            raw_bytes@.len() == 32 ==> r is Ok && r->Ok_0.spec_seed() == raw_bytes@,
            raw_bytes@.len() != 32 ==> r is Err
                && r->Err_0.spec_kind() == ErrorKind::CryptoSignatureRingEd25519,
    {
        match ring::signature::Ed25519KeyPair::from_seed_unchecked(raw_bytes) {
            Ok(inner) => Ok(KeyPair { seed: raw_bytes.to_vec(), inner }),
            Err(_) => Err(Error::wrapped(ErrorKind::CryptoSignatureRingEd25519,
                "Seed has an invalid length")),
        }
    }

    /// The public key matching this key pair.
    ///
    /// Relies on `ring::signature::KeyPair::public_key` for Ed25519 key
    /// pairs: the public key is 32 bytes.
    #[verifier::external_body]
    pub fn public_key(&self) -> (r: PublicKey)
        ensures
            r@.len() == 32,
    {
        let bytes = ring::signature::KeyPair::public_key(&self.inner).as_ref().to_vec();
        PublicKey { bytes }
    }

    /// Signs `msg` with this key pair.
    ///
    /// Relies on `ring::signature::Ed25519KeyPair::sign`: Ed25519
    /// signing is deterministic, a function of the seed the key was
    /// derived from and the message alone.
    #[verifier::external_body]
    pub fn sign(&self, msg: &[u8]) -> (r: Signature)
        ensures
            r@ == sign_of(self.spec_seed(), msg@),
    {
        let sig = self.inner.sign(msg);
        let mut bytes = [0u8; 64];
        bytes.copy_from_slice(sig.as_ref());
        Signature { bytes }
    }
}

} // verus!
