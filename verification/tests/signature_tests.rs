use ed25519_dalek::{Signer, SigningKey};
use post_discord_to_event::hex::{decode, digit_value};
use post_discord_to_event::signature::{
    message_to_verify, verdict, verify, KeyError, PublicKey, VerificationError,
};

fn to_hex(bytes: &[u8]) -> String {
    let mut text = String::new();
    for b in bytes {
        text.push_str(&format!("{:02x}", b));
    }
    text
}

fn signing_key(seed: u8) -> SigningKey {
    SigningKey::from_bytes(&[seed; 32])
}

fn public_key(key: &SigningKey) -> PublicKey {
    PublicKey::from_bytes(key.verifying_key().to_bytes().to_vec()).expect("32 bytes")
}

fn sign(key: &SigningKey, timestamp: &str, body: &[u8]) -> String {
    let mut message = timestamp.as_bytes().to_vec();
    message.extend_from_slice(body);
    to_hex(&key.sign(&message).to_bytes())
}

const BODY: &[u8] = br#"{"id":"1","application_id":"2","token":"t","type":1,"version":1}"#;
const TIMESTAMP: &str = "1732187098";

#[test]
fn digit_values() {
    assert_eq!(digit_value(b'0'), Some(0));
    assert_eq!(digit_value(b'9'), Some(9));
    assert_eq!(digit_value(b'a'), Some(10));
    assert_eq!(digit_value(b'f'), Some(15));
    assert_eq!(digit_value(b'A'), Some(10));
    assert_eq!(digit_value(b'F'), Some(15));
    assert_eq!(digit_value(b'g'), None);
    assert_eq!(digit_value(b'G'), None);
    assert_eq!(digit_value(b'/'), None);
    assert_eq!(digit_value(b':'), None);
    assert_eq!(digit_value(b'+'), None);
    assert_eq!(digit_value(b' '), None);
}

#[test]
fn decode_reads_pairs() {
    assert_eq!(decode(b"bf7dea78"), Some(vec![0xbf, 0x7d, 0xea, 0x78]));
    assert_eq!(decode(b"BF7DEA78"), Some(vec![0xbf, 0x7d, 0xea, 0x78]));
    assert_eq!(decode(b"00ff"), Some(vec![0x00, 0xff]));
    assert_eq!(decode(b""), Some(vec![]));
}

#[test]
fn decode_refuses_what_is_not_hex() {
    assert_eq!(decode(b"bf7dea7"), None);
    assert_eq!(decode(b"bf7dea7x"), None);
    assert_eq!(decode(b"+f"), None);
    assert_eq!(decode(b"0x"), None);
    assert_eq!(decode(b" 0"), None);
}

#[test]
fn message_is_timestamp_then_body() {
    assert_eq!(message_to_verify(b"12", b"ab"), b"12ab".to_vec());
    assert_eq!(message_to_verify(b"", b"ab"), b"ab".to_vec());
    assert_eq!(message_to_verify(b"12", b""), b"12".to_vec());
    assert_eq!(message_to_verify(b"", b""), Vec::<u8>::new());
}

#[test]
fn verdict_follows_the_judgement() {
    assert_eq!(verdict(true), Ok(()));
    assert_eq!(verdict(false), Err(VerificationError::VerificationFailed));
}

#[test]
fn key_from_bytes_wants_32() {
    assert!(PublicKey::from_bytes(vec![1; 32]).is_some());
    assert!(PublicKey::from_bytes(vec![1; 31]).is_none());
    assert!(PublicKey::from_bytes(vec![1; 33]).is_none());
    assert!(PublicKey::from_bytes(vec![]).is_none());
    let key = PublicKey::from_bytes(vec![7; 32]).unwrap();
    assert_eq!(key.as_bytes(), &[7u8; 32][..]);
}

#[test]
fn key_from_hex() {
    let text = "67c6bd767ca099e79efac9fcce4d2022a63bf7dea780e7f3d813f694c1597089";
    let key = PublicKey::from_hex(text).ok().expect("a key");
    assert_eq!(
        key.as_bytes(),
        &[
            0x67, 0xc6, 0xbd, 0x76, 0x7c, 0xa0, 0x99, 0xe7, 0x9e, 0xfa, 0xc9, 0xfc, 0xce, 0x4d,
            0x20, 0x22, 0xa6, 0x3b, 0xf7, 0xde, 0xa7, 0x80, 0xe7, 0xf3, 0xd8, 0x13, 0xf6, 0x94,
            0xc1, 0x59, 0x70, 0x89
        ][..]
    );
    assert_eq!(PublicKey::from_hex("67c6").err(), Some(KeyError::WrongLength));
    assert_eq!(PublicKey::from_hex("").err(), Some(KeyError::WrongLength));
    assert_eq!(PublicKey::from_hex("xyz").err(), Some(KeyError::NotHex));
    assert_eq!(PublicKey::from_hex(&text[1..]).err(), Some(KeyError::NotHex));
}

#[test]
fn correctly_signed_request_passes() {
    let key = signing_key(7);
    let signature = sign(&key, TIMESTAMP, BODY);
    assert_eq!(verify(&public_key(&key), Some(&signature), Some(TIMESTAMP), BODY), Ok(()));
}

#[test]
fn signature_in_upper_case_passes() {
    let key = signing_key(7);
    let signature = sign(&key, TIMESTAMP, BODY).to_uppercase();
    assert_eq!(verify(&public_key(&key), Some(&signature), Some(TIMESTAMP), BODY), Ok(()));
}

#[test]
fn empty_body_and_empty_timestamp_pass_when_signed() {
    let key = signing_key(9);
    let signature = sign(&key, "", b"");
    assert_eq!(verify(&public_key(&key), Some(&signature), Some(""), b""), Ok(()));
}

#[test]
fn known_signature_passes() {
    // A published Ed25519 test vector whose message is the single byte 0x72,
    // taken here once as the timestamp and once as the body.
    let key = PublicKey::from_hex(
        "3d4017c3e843895a92b70aa74d1b7ebc9c982ccf2ec4968cc0cd55f12af4660c",
    )
    .ok()
    .expect("a key");
    let signature = "92a009a9f0d4cab8720e820b5f642540a2b27b5416503f8fb3762223ebdb69da\
                     085ac1e43e15996e458f3613d0f11d8c387b2eaeb4302aeeb00d291612bb0c00";
    assert_eq!(verify(&key, Some(signature), Some("r"), b""), Ok(()));
    assert_eq!(verify(&key, Some(signature), Some(""), b"r"), Ok(()));
    assert_eq!(
        verify(&key, Some(signature), Some("r"), b"r"),
        Err(VerificationError::VerificationFailed)
    );
    assert_eq!(
        verify(&key, Some(signature), Some(""), b""),
        Err(VerificationError::VerificationFailed)
    );
}

#[test]
fn every_altered_body_byte_fails() {
    let key = signing_key(7);
    let signature = sign(&key, TIMESTAMP, BODY);
    for i in 0..BODY.len() {
        let mut body = BODY.to_vec();
        body[i] ^= 0x01;
        assert_eq!(
            verify(&public_key(&key), Some(&signature), Some(TIMESTAMP), &body),
            Err(VerificationError::VerificationFailed)
        );
    }
}

#[test]
fn every_altered_timestamp_byte_fails() {
    let key = signing_key(7);
    let signature = sign(&key, TIMESTAMP, BODY);
    for i in 0..TIMESTAMP.len() {
        let mut timestamp = TIMESTAMP.as_bytes().to_vec();
        timestamp[i] = if timestamp[i] == b'9' { b'0' } else { timestamp[i] + 1 };
        let timestamp = String::from_utf8(timestamp).unwrap();
        assert_eq!(
            verify(&public_key(&key), Some(&signature), Some(&timestamp), BODY),
            Err(VerificationError::VerificationFailed)
        );
    }
}

#[test]
fn every_altered_signature_byte_fails() {
    let key = signing_key(7);
    let message = {
        let mut m = TIMESTAMP.as_bytes().to_vec();
        m.extend_from_slice(BODY);
        m
    };
    let signature = key.sign(&message).to_bytes();
    for i in 0..signature.len() {
        let mut altered = signature;
        altered[i] ^= 0x01;
        assert_eq!(
            verify(&public_key(&key), Some(&to_hex(&altered)), Some(TIMESTAMP), BODY),
            Err(VerificationError::VerificationFailed)
        );
    }
}

#[test]
fn moving_a_byte_between_timestamp_and_body_keeps_the_message() {
    // The signature covers the concatenation and nothing else.
    let key = signing_key(7);
    let signature = sign(&key, "17", b"32");
    assert_eq!(verify(&public_key(&key), Some(&signature), Some("173"), b"2"), Ok(()));
    assert_eq!(
        verify(&public_key(&key), Some(&signature), Some("17"), b"3"),
        Err(VerificationError::VerificationFailed)
    );
}

#[test]
fn signature_of_another_key_fails() {
    let configured = signing_key(7);
    for seed in [1u8, 2, 3, 8, 200] {
        let other = signing_key(seed);
        let signature = sign(&other, TIMESTAMP, BODY);
        assert_eq!(
            verify(&public_key(&configured), Some(&signature), Some(TIMESTAMP), BODY),
            Err(VerificationError::VerificationFailed)
        );
        assert_eq!(verify(&public_key(&other), Some(&signature), Some(TIMESTAMP), BODY), Ok(()));
    }
}

#[test]
fn signature_of_wrong_length_is_malformed() {
    let key = signing_key(7);
    let signature = sign(&key, TIMESTAMP, BODY);
    let public = public_key(&key);
    let short = &signature[..126];
    let long = format!("{}00", signature);
    for text in ["", "00", short, long.as_str()] {
        assert_eq!(
            verify(&public, Some(text), Some(TIMESTAMP), BODY),
            Err(VerificationError::MalformedSignature)
        );
    }
}

#[test]
fn signature_that_is_not_hex_is_malformed() {
    let key = signing_key(7);
    let signature = sign(&key, TIMESTAMP, BODY);
    let public = public_key(&key);
    let odd = &signature[..127];
    let with_letter = format!("{}zz", &signature[..126]);
    let with_sign = format!("+{}", &signature[1..]);
    for text in [odd, with_letter.as_str(), with_sign.as_str(), "not a signature"] {
        assert_eq!(
            verify(&public, Some(text), Some(TIMESTAMP), BODY),
            Err(VerificationError::MalformedSignature)
        );
    }
}

#[test]
fn missing_header_is_reported_first() {
    let key = signing_key(7);
    let signature = sign(&key, TIMESTAMP, BODY);
    let public = public_key(&key);
    assert_eq!(
        verify(&public, None, Some(TIMESTAMP), BODY),
        Err(VerificationError::MissingHeader)
    );
    assert_eq!(
        verify(&public, Some(&signature), None, BODY),
        Err(VerificationError::MissingHeader)
    );
    assert_eq!(verify(&public, None, None, BODY), Err(VerificationError::MissingHeader));
    assert_eq!(
        verify(&public, Some("zz"), None, BODY),
        Err(VerificationError::MissingHeader)
    );
}

#[test]
fn key_that_is_no_curve_point_accepts_nothing() {
    let key = signing_key(7);
    let signature = sign(&key, TIMESTAMP, BODY);
    // 32 bytes that decode to no point of the curve.
    let mut bytes = [0xffu8; 32];
    bytes[0] = 0x02;
    if let Some(public) = PublicKey::from_bytes(bytes.to_vec()) {
        assert_eq!(
            verify(&public, Some(&signature), Some(TIMESTAMP), BODY),
            Err(VerificationError::VerificationFailed)
        );
    } else {
        panic!("32 bytes make a key");
    }
}
