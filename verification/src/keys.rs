//! Key material: curve public keys and signatures.
//!
//! A `PubKey` holds exactly 32 bytes that the curve library accepts as a
//! public key. Its canonical text form is lowercase hex; its canonical
//! storage form is the raw bytes. A `Signature` is a content-only wrapper
//! around the claimant's signature bytes: it carries no validity of its
//! own beyond what verification checks.

use vstd::prelude::*;
use vstd::slice::slice_to_vec;

use crate::hexfmt::{decode_hex, encode_hex, hex_of, lemma_hex_of_len, lemma_parse_hex_of,
    parse_hex};

verus! {

/// Whether the curve library accepts these bytes as a public key: a
/// 32-byte canonical encoding of a curve point. The predicate is a
/// function of the bytes alone.
pub uninterp spec fn valid_point(bytes: Seq<u8>) -> bool;

/// Whether `sig`, read as signature bytes, verifies over `msg` under the
/// public key encoded by `key`, with this protocol's fixed
/// domain-separation context bound in. A function of the three byte
/// strings alone; bytes that do not parse as a key or a signature never
/// verify.
pub uninterp spec fn schnorr_verifies(key: Seq<u8>, msg: Seq<u8>, sig: Seq<u8>) -> bool;

/// Relies on `schnorrkel::keys::PublicKey::from_bytes`: a deterministic
/// check that the bytes are a canonical 32-byte point encoding; any other
/// length is rejected.
#[verifier::external_body]
fn check_point(bytes: &[u8]) -> (r: bool)
    ensures
        r == valid_point(bytes@),
        bytes@.len() != 32 ==> !r,
{
    schnorrkel::keys::PublicKey::from_bytes(bytes).is_ok()
}

/// Relies on `schnorrkel::keys::PublicKey::from_bytes`,
/// `schnorrkel::sign::Signature::from_bytes` and
/// `schnorrkel::keys::PublicKey::verify_simple` with the fixed context
/// `b"substrate"`: all three are deterministic in their byte arguments,
/// so the outcome is a function of key, message and signature bytes
/// alone. Returns false when the key or signature bytes do not parse.
#[verifier::external_body]
fn schnorr_verify(key: &[u8], msg: &[u8], sig: &[u8]) -> (r: bool)
    ensures
        r == schnorr_verifies(key@, msg@, sig@),
{
    match (
        schnorrkel::keys::PublicKey::from_bytes(key),
        schnorrkel::sign::Signature::from_bytes(sig),
    ) {
        (Ok(k), Ok(s)) => k.verify_simple(b"substrate", msg, &s).is_ok(),
        _ => false,
    }
}

/// Verify `sig` over `msg` under `key` with the protocol context.
pub fn verify_schnorr_signature(key: &PubKey, msg: &[u8], sig: &Signature) -> (r: bool)
    ensures
        r == schnorr_verifies(key@, msg@, sig@),
{
    schnorr_verify(key.bytes.as_slice(), msg, sig.bytes.as_slice())
}

/// Failures of key construction: text that is not hex, or bytes that are
/// not a valid 32-byte curve point.
#[derive(Clone, Copy, Debug, PartialEq, Eq, Structural)]
pub enum CryptoError {
    InvalidHex,
    InvalidPublicKey,
}

/// Exactly 32 bytes of curve public-key material, accepted by the curve
/// library at construction.
#[derive(Clone, Debug, PartialEq, Eq)]
pub struct PubKey {
    pub(crate) bytes: Vec<u8>,
}

impl View for PubKey {
    type V = Seq<u8>;

    closed spec fn view(&self) -> Seq<u8> {
        self.bytes@
    }
}

impl PubKey {
    /// A well-formed key holds exactly the bytes of a valid curve point.
    pub open spec fn wf(&self) -> bool {
        self@.len() == 32 && valid_point(self@)
    }

    /// Construct a key from raw bytes; fails unless the bytes are a valid
    /// 32-byte curve point.
    pub fn from_bytes(bytes: &[u8]) -> (r: Result<PubKey, CryptoError>)
        ensures
            match r {
                Ok(k) => k@ == bytes@ && k.wf(),
                Err(e) => !valid_point(bytes@) && e == CryptoError::InvalidPublicKey,
            },
    {
        if check_point(bytes) {
            Ok(PubKey { bytes: slice_to_vec(bytes) })
        } else {
            Err(CryptoError::InvalidPublicKey)
        }
    }

    /// The raw byte storage form; 32 bytes for every constructed key.
    pub fn to_bytes(&self) -> (r: Vec<u8>)
        ensures
            r@ == self@,
    {
        slice_to_vec(self.bytes.as_slice())
    }

    /// Whether two keys hold the same bytes.
    pub fn same_key(&self, other: &PubKey) -> (r: bool)
        ensures
            r == (self@ == other@),
    {
        if self.bytes.len() != other.bytes.len() {
            return false;
        }
        let mut i: usize = 0;
        while i < self.bytes.len()
            invariant
                i <= self.bytes@.len(),
                self.bytes@.len() == other.bytes@.len(),
                forall|j: int| 0 <= j < i ==> self.bytes@[j] == other.bytes@[j],
            decreases self.bytes@.len() - i,
        {
            if self.bytes[i] != other.bytes[i] {
                return false;
            }
            i = i + 1;
        }
        proof {
            assert(self@ =~= other@);
        }
        true
    }

    /// An equal copy of this key.
    pub fn duplicate(&self) -> (r: PubKey)
        ensures
            r@ == self@,
            r.wf() <==> self.wf(),
    {
        PubKey { bytes: slice_to_vec(self.bytes.as_slice()) }
    }

    /// The canonical lowercase hex text form; 64 hex characters for
    /// every constructed key.
    pub fn to_hex(&self) -> (r: String)
        ensures
            r@ == hex_of(self@),
            r@.len() == 2 * self@.len(),
    {
        proof {
            lemma_hex_of_len(self@);
        }
        encode_hex(self.bytes.as_slice())
    }

    /// Construct a key from its hex text form.
    pub fn from_hex(s: &str) -> (r: Result<PubKey, CryptoError>)
        ensures
            match r {
                Ok(k) => parse_hex(s@) == Some(k@) && k.wf(),
                Err(e) => match e {
                    CryptoError::InvalidHex => parse_hex(s@) is None,
                    CryptoError::InvalidPublicKey => parse_hex(s@) matches Some(b)
                        && !valid_point(b),
                },
            },
    {
        match decode_hex(s) {
            Some(bytes) => match PubKey::from_bytes(bytes.as_slice()) {
                Ok(k) => Ok(k),
                Err(_) => Err(CryptoError::InvalidPublicKey),
            },
            None => Err(CryptoError::InvalidHex),
        }
    }
}

/// Round trip of key material through its two canonical forms: for a
/// well-formed key, the raw bytes are a valid point (so `from_bytes`
/// succeeds on the output of `to_bytes` and returns a key with equal
/// bytes), and parsing the hex text of the bytes gives the bytes back
/// (so `from_hex` succeeds on the output of `to_hex` likewise).
pub proof fn lemma_key_round_trip(k: PubKey)
    requires
        k.wf(),
    ensures
        valid_point(k@),
        parse_hex(hex_of(k@)) == Some(k@),
{
    lemma_parse_hex_of(k@);
}

/// Opaque signature bytes produced by the claimant's signing device.
#[derive(Clone, Debug, PartialEq, Eq)]
pub struct Signature {
    pub(crate) bytes: Vec<u8>,
}

impl View for Signature {
    type V = Seq<u8>;

    closed spec fn view(&self) -> Seq<u8> {
        self.bytes@
    }
}

impl Signature {
    /// Wrap raw signature bytes; no validation is done here.
    pub fn new(bytes: Vec<u8>) -> (r: Signature)
        ensures
            r@ == bytes@,
    {
        Signature { bytes }
    }

    /// The wrapped bytes.
    pub fn as_bytes(&self) -> (r: &Vec<u8>)
        ensures
            r@ == self@,
    {
        &self.bytes
    }
}

} // verus!

