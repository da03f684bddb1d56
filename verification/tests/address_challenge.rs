use base58::ToBase58;

use identity_verifier::address::{Algorithm, DecodeError, NetAccount, NetworkAddress};
use identity_verifier::challenge::Challenge;
use identity_verifier::keys::Signature;

/// A keypair whose public key's first byte equals `tag`, so that the
/// key window of an encoded address (which overlaps the tag byte)
/// carries the wanted algorithm tag.
fn keypair_with_tag(tag: u8) -> schnorrkel::Keypair {
    loop {
        let pair = schnorrkel::Keypair::generate();
        if pair.public.to_bytes()[0] == tag {
            return pair;
        }
    }
}

/// The textual account whose base58 bytes are `[0] ++ key`.
fn account_for(key: &[u8]) -> NetAccount {
    let mut bytes = vec![0u8];
    bytes.extend_from_slice(key);
    NetAccount::new(bytes.to_base58())
}

#[test]
fn decode_extracts_key_window() {
    // The key window overlaps the tag byte, and a compressed point
    // encoding always starts with an even byte, so only the Schnorr
    // (48) and ECDSA (50) tags can head a decodable address; an
    // Edwards (49) window is never a valid point.
    for (tag, algo) in [(48u8, Algorithm::Schnorr), (50u8, Algorithm::ECDSA)] {
        let pair = keypair_with_tag(tag);
        let key = pair.public.to_bytes();
        let account = account_for(&key);
        let text = account.as_str().to_string();
        let address = NetworkAddress::decode(account).unwrap();
        assert_eq!(*address.algo(), algo);
        assert_eq!(address.address().as_str(), text);
        // The key window is bytes 1..33 of the decoded input, which is
        // exactly the public key we embedded.
        assert_eq!(address.pub_key().to_bytes(), key.to_vec());
    }
}

#[test]
fn decode_rejects_bad_base58() {
    let account = NetAccount::new("0OIl".to_string());
    assert_eq!(
        NetworkAddress::decode(account),
        Err(DecodeError::Base58DecodeError)
    );
}

#[test]
fn decode_rejects_overlong_input() {
    // Over the decoder's 132-character bound the call is refused
    // outright; this input would otherwise make the decoder panic on
    // its leading-zero run.
    let account = NetAccount::new("1".repeat(133));
    assert_eq!(
        NetworkAddress::decode(account),
        Err(DecodeError::Base58DecodeError)
    );
}

#[test]
fn decode_accepts_text_at_the_length_bound() {
    // Exactly at the bound the decoder is still called safely: 132
    // leading '1' characters decode to 132 zero bytes, whose tag byte
    // names no algorithm.
    let account = NetAccount::new("1".repeat(132));
    assert_eq!(
        NetworkAddress::decode(account),
        Err(DecodeError::UnknownAlgorithm)
    );
}

#[test]
fn decode_rejects_short_input() {
    let account = NetAccount::new([1u8; 10].to_base58());
    assert_eq!(NetworkAddress::decode(account), Err(DecodeError::TooShort));
}

#[test]
fn decode_rejects_unknown_algorithm() {
    let mut bytes = vec![0u8, 99u8];
    bytes.extend_from_slice(&[0u8; 31]);
    let account = NetAccount::new(bytes.to_base58());
    assert_eq!(
        NetworkAddress::decode(account),
        Err(DecodeError::UnknownAlgorithm)
    );
}

#[test]
fn decode_rejects_invalid_public_key() {
    // Window starts with a valid tag but is not a canonical point
    // encoding (high limb far above the field modulus).
    let mut bytes = vec![0u8, 48u8];
    bytes.extend_from_slice(&[0xffu8; 31]);
    let account = NetAccount::new(bytes.to_base58());
    assert_eq!(
        NetworkAddress::decode(account),
        Err(DecodeError::InvalidPublicKey)
    );
}

#[test]
fn gen_random_is_32_hex_chars() {
    let a = Challenge::gen_random();
    let b = Challenge::gen_random();
    assert_eq!(a.as_str().len(), 32);
    assert_eq!(a.as_bytes().len(), 32);
    assert!(a.as_str().chars().all(|c| c.is_ascii_hexdigit()));
    // Independent draws from a 128-bit space never collide in practice.
    assert_ne!(a.as_str(), b.as_str());
}

#[test]
fn verify_message() {
    let pair = keypair_with_tag(48);
    let account = account_for(&pair.public.to_bytes());
    let address = NetworkAddress::decode(account).unwrap();

    let challenge = Challenge::gen_random();
    let sig = pair.sign_simple(b"substrate", challenge.as_str().as_bytes());
    let signature = Signature::new(sig.to_bytes().to_vec());

    assert!(challenge.verify_challenge(&address, &signature));
}

#[test]
fn verify_rejects_tampering() {
    let pair = keypair_with_tag(48);
    let account = account_for(&pair.public.to_bytes());
    let address = NetworkAddress::decode(account).unwrap();

    let challenge = Challenge::gen_random();
    let sig = pair.sign_simple(b"substrate", challenge.as_str().as_bytes());

    // A flipped signature byte fails.
    let mut bad = sig.to_bytes().to_vec();
    bad[3] ^= 0x01;
    assert!(!challenge.verify_challenge(&address, &Signature::new(bad)));

    // A different challenge fails.
    let other = Challenge::gen_random();
    let signature = Signature::new(sig.to_bytes().to_vec());
    assert!(!other.verify_challenge(&address, &signature));

    // A different key fails.
    let stranger = keypair_with_tag(48);
    let other_address = NetworkAddress::decode(account_for(&stranger.public.to_bytes())).unwrap();
    assert!(!challenge.verify_challenge(&other_address, &signature));
}

#[test]
fn verify_rejects_placeholder_algorithms() {
    // An ECDSA address always rejects, even for a signature that is
    // valid under the Schnorr path for the same key. (An Edwards
    // address cannot be built at all: its tag byte is odd, and no
    // valid point encoding starts with an odd byte.)
    let pair = keypair_with_tag(50);
    let account = account_for(&pair.public.to_bytes());
    let address = NetworkAddress::decode(account).unwrap();
    assert_eq!(*address.algo(), Algorithm::ECDSA);

    let challenge = Challenge::gen_random();
    let sig = pair.sign_simple(b"substrate", challenge.as_str().as_bytes());
    let signature = Signature::new(sig.to_bytes().to_vec());
    assert!(!challenge.verify_challenge(&address, &signature));
}
