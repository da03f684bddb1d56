//! Network accounts and textual address decoding.
//!
//! A `NetAccount` is the validated textual form of a network address in
//! the base58 alphabet; an `Account` is the claimed textual value of any
//! other identity field (an email address, a web URL, a handle). Decoding
//! a `NetAccount` yields a `NetworkAddress`: the account, its signing
//! algorithm tag and the public key extracted from the decoded bytes.

use vstd::prelude::*;
use vstd::slice::slice_subrange;

use base58::FromBase58;

use crate::keys::{valid_point, PubKey};

verus! {

/// The bytes that base58 decoding of a text denotes, or `None` where the
/// text is not valid base58 under the decoder used here. A function of
/// the text alone.
pub uninterp spec fn base58_bytes(s: Seq<char>) -> Option<Seq<u8>>;

/// The decoder's fixed buffer length. Texts longer than this are
/// refused before the decoder is called: it rejects overlong *values*
/// with an error, but an overlong run of leading `'1'` characters
/// makes its final slice panic, so longer texts must never reach it.
/// Within this bound the call is safe, since each base58 character
/// yields at most one decoded byte.
pub const BASE58_INPUT_LIMIT: usize = 132;

/// Relies on `base58::FromBase58::from_base58` for `str`: a deterministic
/// decoding of the base58 alphabet, called only on texts that fit its
/// fixed 132-byte buffer (see `BASE58_INPUT_LIMIT`; on longer inputs
/// the decoder can panic, so they are excluded here).
#[verifier::external_body]
fn base58_decode(s: &str) -> (r: Option<Vec<u8>>)
    requires
        s@.len() <= BASE58_INPUT_LIMIT,
    ensures
        match r {
            Some(v) => base58_bytes(s@) == Some(v@),
            None => base58_bytes(s@) is None,
        },
{
    s.from_base58().ok()
}

/// Opaque validated textual form of a network address. Immutable once
/// constructed; equality is character-for-character text equality.
#[derive(Clone, Debug, PartialEq, Eq, Hash)]
pub struct NetAccount {
    text: String,
}

impl View for NetAccount {
    type V = Seq<char>;

    closed spec fn view(&self) -> Seq<char> {
        self.text@
    }
}

impl NetAccount {
    /// Wrap an address text.
    pub fn new(text: String) -> (r: NetAccount)
        ensures
            r@ == text@,
    {
        NetAccount { text }
    }

    /// The address text.
    pub fn as_str(&self) -> (r: &str)
        ensures
            r@ == self@,
    {
        self.text.as_str()
    }

    /// An equal copy of this account.
    pub fn duplicate(&self) -> (r: NetAccount)
        ensures
            r@ == self@,
    {
        NetAccount { text: self.text.clone() }
    }
}

/// The claimed textual value of an identity field.
#[derive(Clone, Debug, PartialEq, Eq)]
pub struct Account {
    text: String,
}

impl View for Account {
    type V = Seq<char>;

    closed spec fn view(&self) -> Seq<char> {
        self.text@
    }
}

impl Account {
    /// Wrap a claimed value.
    pub fn new(text: String) -> (r: Account)
        ensures
            r@ == text@,
    {
        Account { text }
    }

    /// The claimed value's text.
    pub fn as_str(&self) -> (r: &str)
        ensures
            r@ == self@,
    {
        self.text.as_str()
    }

    /// An equal copy of this value.
    pub fn duplicate(&self) -> (r: Account)
        ensures
            r@ == self@,
    {
        Account { text: self.text.clone() }
    }

    /// Whether two claimed values are equal text.
    pub fn same(&self, other: &Account) -> (r: bool)
        ensures
            r == (self@ == other@),
    {
        self.text == other.text
    }
}

/// The closed set of signing algorithms an address can name. Only
/// Schnorr has a working verification path; the other two are explicit
/// always-reject placeholders.
#[derive(Clone, Copy, Debug, PartialEq, Eq, Structural)]
pub enum Algorithm {
    Schnorr,
    Edwards,
    ECDSA,
}

/// The algorithm a tag byte names, if any.
pub open spec fn algo_of_tag(tag: u8) -> Option<Algorithm> {
    if tag == 48 {
        Some(Algorithm::Schnorr)
    } else if tag == 49 {
        Some(Algorithm::Edwards)
    } else if tag == 50 {
        Some(Algorithm::ECDSA)
    } else {
        None
    }
}

/// Failures of address decoding.
#[derive(Clone, Copy, Debug, PartialEq, Eq, Structural)]
pub enum DecodeError {
    /// The text is not valid base58, or is longer than the decoder's
    /// length bound.
    Base58DecodeError,
    /// The decoded byte string is shorter than 33 bytes.
    TooShort,
    /// The tag byte names no known algorithm.
    UnknownAlgorithm,
    /// The public-key window is not a valid curve point.
    InvalidPublicKey,
}

/// The mathematical content of a `NetworkAddress`.
#[verifier::ext_equal]
pub ghost struct NetworkAddressView {
    pub address: Seq<char>,
    pub algo: Algorithm,
    pub pub_key: Seq<u8>,
}

/// What it means for an address text to decode to an algorithm and a
/// public key: the base58 bytes are at least 33 long, the byte at offset
/// 1 is the algorithm's tag, and the key is the 32-byte window at
/// offsets 1..33 (which overlaps the tag byte) and is a valid point.
pub open spec fn decodes_to(address: Seq<char>, algo: Algorithm, key: Seq<u8>) -> bool {
    &&& base58_bytes(address) matches Some(b)
    &&& base58_bytes(address)->Some_0.len() >= 33
    &&& algo_of_tag(base58_bytes(address)->Some_0[1]) == Some(algo)
    &&& key == base58_bytes(address)->Some_0.subrange(1, 33)
    &&& valid_point(key)
}

/// A decoded network address: the textual account, the signing algorithm
/// its tag byte names, and the public key extracted from its bytes.
/// Constructed only by `decode`; never mutated.
#[derive(Clone, Debug, PartialEq, Eq)]
pub struct NetworkAddress {
    address: NetAccount,
    algo: Algorithm,
    pub_key: PubKey,
}

impl View for NetworkAddress {
    type V = NetworkAddressView;

    closed spec fn view(&self) -> NetworkAddressView {
        NetworkAddressView {
            address: self.address@,
            algo: self.algo,
            pub_key: self.pub_key@,
        }
    }
}

impl NetworkAddress {
    /// Every constructed address decodes from its own text.
    pub open spec fn wf(&self) -> bool {
        &&& decodes_to(self@.address, self@.algo, self@.pub_key)
        &&& self@.pub_key.len() == 32
    }

    /// The textual account this address was decoded from.
    pub fn address(&self) -> (r: &NetAccount)
        ensures
            r@ == self@.address,
    {
        &self.address
    }

    /// The public key named by the address bytes.
    pub fn pub_key(&self) -> (r: &PubKey)
        ensures
            r@ == self@.pub_key,
    {
        &self.pub_key
    }

    /// The signing algorithm named by the tag byte.
    pub fn algo(&self) -> (r: &Algorithm)
        ensures
            *r == self@.algo,
    {
        &self.algo
    }

    /// An equal copy of this address.
    pub fn duplicate(&self) -> (r: NetworkAddress)
        ensures
            r@ == self@,
            r.wf() <==> self.wf(),
    {
        let r = NetworkAddress {
            address: self.address.duplicate(),
            algo: self.algo,
            pub_key: self.pub_key.duplicate(),
        };
        proof {
            assert(r@ =~= self@);
        }
        r
    }

    /// Whether two decoded addresses are equal in account text,
    /// algorithm and key bytes.
    pub fn same_address(&self, other: &NetworkAddress) -> (r: bool)
        ensures
            r == (self@ == other@),
    {
        let r = self.address.text == other.address.text && self.algo == other.algo
            && self.pub_key.same_key(&other.pub_key);
        proof {
            if r {
                assert(self@ =~= other@);
            }
        }
        r
    }

    /// Decode a textual account into a typed network address: the text
    /// must fit the decoder's length bound, its base58 bytes must be at
    /// least 33 long, byte 1 must name an algorithm, and bytes 1..33
    /// must form a valid public key. A text over the bound is refused
    /// as malformed base58, like one outside the alphabet.
    pub fn decode(raw: NetAccount) -> (r: Result<NetworkAddress, DecodeError>)
        ensures
            match r {
                Ok(a) => raw@.len() <= BASE58_INPUT_LIMIT && a@.address == raw@ && a.wf(),
                Err(e) => match e {
                    DecodeError::Base58DecodeError => raw@.len() > BASE58_INPUT_LIMIT
                        || base58_bytes(raw@) is None,
                    DecodeError::TooShort => {
                        &&& raw@.len() <= BASE58_INPUT_LIMIT
                        &&& base58_bytes(raw@) matches Some(b) && b.len() < 33
                    },
                    DecodeError::UnknownAlgorithm => {
                        &&& raw@.len() <= BASE58_INPUT_LIMIT
                        &&& base58_bytes(raw@) matches Some(b) && b.len() >= 33 && algo_of_tag(
                            b[1],
                        ) is None
                    },
                    DecodeError::InvalidPublicKey => {
                        &&& raw@.len() <= BASE58_INPUT_LIMIT
                        &&& base58_bytes(raw@) matches Some(b) && b.len() >= 33 && algo_of_tag(
                            b[1],
                        ) is Some && !valid_point(b.subrange(1, 33))
                    },
                },
            },
    {
        if raw.as_str().unicode_len() > BASE58_INPUT_LIMIT {
            return Err(DecodeError::Base58DecodeError);
        }
        let bytes = match base58_decode(raw.as_str()) {
            Some(bytes) => bytes,
            None => {
                return Err(DecodeError::Base58DecodeError);
            },
        };
        if bytes.len() < 33 {
            return Err(DecodeError::TooShort);
        }
        let tag = bytes[1];
        let algo = match algo_from_tag(tag) {
            Some(algo) => algo,
            None => {
                return Err(DecodeError::UnknownAlgorithm);
            },
        };
        let window = slice_subrange(bytes.as_slice(), 1, 33);
        match PubKey::from_bytes(window) {
            Ok(pub_key) => Ok(NetworkAddress { address: raw, algo, pub_key }),
            Err(_) => Err(DecodeError::InvalidPublicKey),
        }
    }
}

/// The algorithm a tag byte names, if any.
fn algo_from_tag(tag: u8) -> (r: Option<Algorithm>)
    ensures
        r == algo_of_tag(tag),
{
    if tag == 48 {
        Some(Algorithm::Schnorr)
    } else if tag == 49 {
        Some(Algorithm::Edwards)
    } else if tag == 50 {
        Some(Algorithm::ECDSA)
    } else {
        None
    }
}

} // verus!
