//! Challenge nonces and the signed-challenge predicate.
//!
//! A challenge is a single-use random nonce, hex-encoded from 16 random
//! bytes. A claimant proves possession of the key behind a network
//! address by signing the UTF-8 bytes of the challenge's hex text; the
//! verification predicate is a plain boolean, so a caller learns nothing
//! about why verification failed.

use vstd::prelude::*;
use vstd::utf8::encode_utf8;

use crate::address::{Algorithm, NetworkAddress};
use crate::hexfmt::{encode_hex, hex_of, lemma_hex_of_len};
use crate::keys::{schnorr_verifies, verify_schnorr_signature, Signature};

verus! {

/// Relies on `rand::random`: 16 bytes drawn from the thread-local
/// cryptographically secure generator. Nothing can be promised of the
/// drawn values themselves.
#[verifier::external_body]
fn random_nonce_bytes() -> (r: Vec<u8>)
    ensures
        r@.len() == 16,
{
    let nonce: [u8; 16] = rand::random();
    nonce.to_vec()
}

/// A single-use random nonce, held as its hex text. Immutable.
#[derive(Clone, Debug, PartialEq, Eq)]
pub struct Challenge {
    text: String,
}

impl View for Challenge {
    type V = Seq<char>;

    closed spec fn view(&self) -> Seq<char> {
        self.text@
    }
}

impl Challenge {
    /// Wrap a challenge text.
    pub fn new(text: String) -> (r: Challenge)
        ensures
            r@ == text@,
    {
        Challenge { text }
    }

    /// Draw a fresh nonce: 16 random bytes, hex-encoded to 32 characters.
    /// Each call is an independent draw.
    pub fn gen_random() -> (r: Challenge)
        ensures
            exists|b: Seq<u8>| b.len() == 16 && r@ == hex_of(b),
            r@.len() == 32,
    {
        let bytes = random_nonce_bytes();
        let text = encode_hex(bytes.as_slice());
        proof {
            lemma_hex_of_len(bytes@);
            assert(bytes@.len() == 16 && text@ == hex_of(bytes@));
        }
        Challenge { text }
    }

    /// The challenge's hex text.
    pub fn as_str(&self) -> (r: &str)
        ensures
            r@ == self@,
    {
        self.text.as_str()
    }

    /// The byte form of the challenge text: what a claimant signs.
    pub fn as_bytes(&self) -> (r: &[u8])
        ensures
            r@ == encode_utf8(self@),
    {
        self.text.as_str().as_bytes()
    }

    /// Whether `sig` proves possession of the key behind
    /// `network_address` for this challenge: true exactly when the
    /// address names the Schnorr algorithm and the signature verifies
    /// over the challenge text under the address's key with the protocol
    /// context. The Edwards and ECDSA paths are explicit always-reject
    /// placeholders, whatever the signature.
    pub fn verify_challenge(&self, network_address: &NetworkAddress, sig: &Signature) -> (r: bool)
        ensures
            r == (network_address@.algo == Algorithm::Schnorr && schnorr_verifies(
                network_address@.pub_key,
                encode_utf8(self@),
                sig@,
            )),
    {
        match network_address.algo() {
            Algorithm::Schnorr => verify_schnorr_signature(
                network_address.pub_key(),
                self.text.as_str().as_bytes(),
                sig,
            ),
            Algorithm::Edwards => false,
            Algorithm::ECDSA => false,
        }
    }
}

} // verus!
