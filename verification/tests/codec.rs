use identity_verifier::hexfmt::{decode_hex, encode_hex};
use identity_verifier::keys::{CryptoError, PubKey};
use identity_verifier::tokens::{AccountType, ChallengeStatus, Judgement};
use identity_verifier::Fatal;

#[test]
fn hex_encodes_lowercase() {
    let bytes = vec![0x00u8, 0x01, 0x0f, 0x10, 0xab, 0xff];
    assert_eq!(encode_hex(&bytes), "00010f10abff");
    assert_eq!(encode_hex(&[]), "");
}

#[test]
fn hex_round_trip() {
    let bytes: Vec<u8> = (0u8..=255).collect();
    let text = encode_hex(&bytes);
    assert_eq!(text.len(), 512);
    let back = decode_hex(&text).unwrap();
    assert_eq!(back, bytes);
}

#[test]
fn hex_decode_accepts_uppercase() {
    assert_eq!(decode_hex("ABCDEF"), Some(vec![0xabu8, 0xcd, 0xef]));
}

#[test]
fn hex_decode_rejects_bad_input() {
    assert_eq!(decode_hex("abc"), None); // odd length
    assert_eq!(decode_hex("zz"), None); // not hex
    assert_eq!(decode_hex("0g"), None);
}

#[test]
fn pub_key_round_trips_through_bytes_and_hex() {
    let pair = schnorrkel::Keypair::generate();
    let raw = pair.public.to_bytes();
    let key = PubKey::from_bytes(&raw).unwrap();
    assert_eq!(key.to_bytes(), raw.to_vec());

    let again = PubKey::from_bytes(&key.to_bytes()).unwrap();
    assert_eq!(again, key);

    let hex = key.to_hex();
    assert_eq!(hex.len(), 64);
    let from_hex = PubKey::from_hex(&hex).unwrap();
    assert_eq!(from_hex, key);
}

#[test]
fn pub_key_rejects_bad_bytes() {
    assert_eq!(
        PubKey::from_bytes(&[1, 2, 3]),
        Err(CryptoError::InvalidPublicKey)
    );
    // Not a canonical field element: the curve library rejects it.
    assert_eq!(
        PubKey::from_bytes(&[0xffu8; 32]),
        Err(CryptoError::InvalidPublicKey)
    );
    assert_eq!(PubKey::from_hex("zz"), Err(CryptoError::InvalidHex));
    assert_eq!(PubKey::from_hex("ab"), Err(CryptoError::InvalidPublicKey));
}

#[test]
fn account_type_tokens_round_trip() {
    let storable = [
        (AccountType::LegalName, "legal_name"),
        (AccountType::DisplayName, "display_name"),
        (AccountType::Email, "email"),
        (AccountType::Web, "web"),
        (AccountType::Twitter, "twitter"),
        (AccountType::Matrix, "matrix"),
    ];
    for (ty, token) in storable {
        assert_eq!(ty.to_token(), Some(token));
        assert_eq!(AccountType::from_token(token), Some(ty));
    }
    assert_eq!(AccountType::ReservedConnector.to_token(), None);
    assert_eq!(AccountType::ReservedEmitter.to_token(), None);
    assert_eq!(AccountType::ReservedFeeder.to_token(), None);
    assert_eq!(AccountType::from_token("EMAIL"), None);
    assert_eq!(AccountType::from_token("unknown"), None);
}

#[test]
fn status_and_judgement_tokens_round_trip() {
    let statuses = [
        (ChallengeStatus::Unconfirmed, "unconfirmed"),
        (ChallengeStatus::Accepted, "accepted"),
        (ChallengeStatus::Rejected, "rejected"),
    ];
    for (st, token) in statuses {
        assert_eq!(st.to_token(), token);
        assert_eq!(ChallengeStatus::from_token(token), Some(st));
    }
    assert_eq!(ChallengeStatus::from_token("confirmed"), None);

    assert_eq!(Judgement::Reasonable.to_token(), "reasonable");
    assert_eq!(Judgement::Erroneous.to_token(), "erroneous");
    assert_eq!(
        Judgement::from_token("reasonable"),
        Some(Judgement::Reasonable)
    );
    assert_eq!(
        Judgement::from_token("erroneous"),
        Some(Judgement::Erroneous)
    );
    assert_eq!(Judgement::from_token("fine"), None);
}

#[test]
fn fatal_extracts_present_values() {
    let r: Result<u32, ()> = Ok(5);
    assert_eq!(r.fatal(), 5);
    assert_eq!(Some("x").fatal(), "x");
}

#[test]
fn unix_time_is_after_epoch() {
    assert!(identity_verifier::unix_time() > 0);
}
