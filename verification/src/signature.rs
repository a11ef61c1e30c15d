//! Authentication of a request by its Ed25519 signature.
//!
//! The signature covers the timestamp header followed by the raw body, byte
//! for byte. Verification runs on the bytes as they arrived, before anything
//! reads the body as structured data.

use vstd::prelude::*;
use vstd::string::*;
use crate::hex::{decode, decode_hex, hex_bytes, is_hex};

verus! {

/// Length of an Ed25519 public key in bytes.
pub const PUBLIC_KEY_LENGTH: usize = 32;

/// Length of an Ed25519 signature in bytes.
pub const SIGNATURE_LENGTH: usize = 64;

/// Why a request failed authentication.
#[derive(Clone, Copy, Debug, PartialEq, Eq, Structural)]
pub enum VerificationError {
    /// The signature header or the timestamp header is absent.
    MissingHeader,
    /// The signature is not hexadecimal text of exactly 64 bytes.
    MalformedSignature,
    /// The signature is well formed and does not match.
    VerificationFailed,
}

/// Why key material was refused.
#[derive(Clone, Copy, Debug, PartialEq, Eq, Structural)]
pub enum KeyError {
    /// The text is not hexadecimal.
    NotHex,
    /// The key does not have 32 bytes.
    WrongLength,
}

/// Whether `signature` is an Ed25519 signature by `public_key` over
/// `message`, as `ed25519_dalek::VerifyingKey` judges it through
/// `ed25519_dalek::Verifier::verify`.
pub uninterp spec fn ed25519_valid(public_key: Seq<u8>, message: Seq<u8>, signature: Seq<u8>) -> bool;

/// Calls `ed25519_dalek::Verifier::verify` on an `ed25519_dalek::VerifyingKey`
/// and an `ed25519_dalek::Signature`, each read from its bytes with `try_from`.
/// Nothing is proved of it: the contract only gives the verifier's judgement a
/// name. Bytes that are no key or no signature are judged invalid.
#[verifier::external_body]
fn ed25519_verify(public_key: &[u8], message: &[u8], signature: &[u8]) -> (accepted: bool)
    ensures
        accepted == ed25519_valid(public_key@, message@, signature@),
{
    let Ok(key) = ed25519_dalek::VerifyingKey::try_from(public_key) else {
        return false;
    };
    let Ok(signature) = ed25519_dalek::Signature::try_from(signature) else {
        return false;
    };
    ed25519_dalek::Verifier::verify(&key, message, &signature).is_ok()
}

/// The public key that requests are verified against: 32 bytes, fixed for the
/// life of the process.
pub struct PublicKey {
    bytes: Vec<u8>,
}

impl View for PublicKey {
    type V = Seq<u8>;

    closed spec fn view(&self) -> Seq<u8> {
        self.bytes@
    }
}

/// What reading key material gives.
pub open spec fn key_from_hex(text: Seq<u8>) -> Result<Seq<u8>, KeyError> {
    match decode_hex(text) {
        None => Err(KeyError::NotHex),
        Some(bytes) => if bytes.len() == PUBLIC_KEY_LENGTH {
            Ok(bytes)
        } else {
            Err(KeyError::WrongLength)
        },
    }
}

impl PublicKey {
    #[verifier::type_invariant]
    spec fn well_formed(&self) -> bool {
        self.bytes@.len() == PUBLIC_KEY_LENGTH
    }

    /// A key from its 32 bytes; nothing for any other length.
    pub fn from_bytes(bytes: Vec<u8>) -> (r: Option<PublicKey>)
        ensures
            match r {
                Some(key) => bytes@.len() == PUBLIC_KEY_LENGTH && key@ == bytes@,
                None => bytes@.len() != PUBLIC_KEY_LENGTH,
            },
    {
        if bytes.len() == PUBLIC_KEY_LENGTH {
            Some(PublicKey { bytes })
        } else {
            None
        }
    }

    /// A key from the hexadecimal text that configuration carries.
    pub fn from_hex(text: &str) -> (r: Result<PublicKey, KeyError>)
        ensures
            match r {
                Ok(key) => key_from_hex(text.spec_bytes()) == Ok::<Seq<u8>, KeyError>(key@),
                Err(e) => key_from_hex(text.spec_bytes()) == Err::<Seq<u8>, KeyError>(e),
            },
    {
        match decode(text.as_bytes()) {
            None => Err(KeyError::NotHex),
            Some(bytes) => match PublicKey::from_bytes(bytes) {
                Some(key) => Ok(key),
                None => Err(KeyError::WrongLength),
            },
        }
    }

    /// The key's bytes.
    pub fn as_bytes(&self) -> (bytes: &[u8])
        ensures
            bytes@ == self@,
            bytes@.len() == PUBLIC_KEY_LENGTH,
    {
        proof {
            use_type_invariant(self);
        }
        self.bytes.as_slice()
    }
}

/// The message that the signature covers: the timestamp, then the body, with
/// nothing between them.
pub open spec fn signed_message(timestamp: Seq<u8>, body: Seq<u8>) -> Seq<u8> {
    timestamp + body
}

/// The verdict on a signature of the right length, given the verifier's
/// judgement.
pub open spec fn verdict_spec(accepted: bool) -> Result<(), VerificationError> {
    if accepted {
        Ok(())
    } else {
        Err(VerificationError::VerificationFailed)
    }
}

/// The outcome of verification. Headers come as the bytes of their text, or
/// `None` where the request has none.
pub open spec fn verification(
    public_key: Seq<u8>,
    signature: Option<Seq<u8>>,
    timestamp: Option<Seq<u8>>,
    body: Seq<u8>,
) -> Result<(), VerificationError> {
    if signature is None || timestamp is None {
        Err(VerificationError::MissingHeader)
    } else if !is_hex(signature->0) || signature->0.len() != 2 * SIGNATURE_LENGTH {
        Err(VerificationError::MalformedSignature)
    } else {
        verdict_spec(
            ed25519_valid(
                public_key,
                signed_message(timestamp->0, body),
                hex_bytes(signature->0),
            ),
        )
    }
}

/// The bytes of a header's text.
pub open spec fn header_bytes(header: Option<&str>) -> Option<Seq<u8>> {
    match header {
        Some(text) => Some(text.spec_bytes()),
        None => None,
    }
}

/// The timestamp's bytes followed by the body's.
pub fn message_to_verify(timestamp: &[u8], body: &[u8]) -> (message: Vec<u8>)
    ensures
        message@ == signed_message(timestamp@, body@),
{
    let mut message: Vec<u8> = Vec::new();
    let mut i: usize = 0;
    while i < timestamp.len()
        invariant
            i <= timestamp@.len(),
            message@ == timestamp@.take(i as int),
        decreases timestamp@.len() - i,
    {
        message.push(timestamp[i]);
        i = i + 1;
        assert(message@ =~= timestamp@.take(i as int));
    }
    assert(timestamp@.take(i as int) =~= timestamp@);
    let mut j: usize = 0;
    while j < body.len()
        invariant
            j <= body@.len(),
            message@ == timestamp@ + body@.take(j as int),
        decreases body@.len() - j,
    {
        message.push(body[j]);
        j = j + 1;
        assert(message@ =~= timestamp@ + body@.take(j as int));
    }
    assert(body@.take(j as int) =~= body@);
    message
}

/// The verdict that follows the verifier's judgement of a well-formed
/// signature.
pub fn verdict(accepted: bool) -> (r: Result<(), VerificationError>)
    ensures
        r == verdict_spec(accepted),
{
    if accepted {
        Ok(())
    } else {
        Err(VerificationError::VerificationFailed)
    }
}

/// Authenticates a request by its two headers and its raw body.
///
/// A missing header is reported first. A signature that is not hexadecimal
/// text of 64 bytes is malformed, and no cryptographic check is made on it.
/// Otherwise the request passes exactly when the signature is valid for the
/// timestamp followed by the body.
pub fn verify(
    public_key: &PublicKey,
    signature: Option<&str>,
    timestamp: Option<&str>,
    body: &[u8],
) -> (r: Result<(), VerificationError>)
    ensures
        r == verification(public_key@, header_bytes(signature), header_bytes(timestamp), body@),
{
    let (signature, timestamp) = match (signature, timestamp) {
        (Some(signature), Some(timestamp)) => (signature, timestamp),
        _ => {
            return Err(VerificationError::MissingHeader);
        },
    };
    let signature_bytes: Vec<u8> = match decode(signature.as_bytes()) {
        Some(bytes) => bytes,
        None => {
            return Err(VerificationError::MalformedSignature);
        },
    };
    if signature_bytes.len() != SIGNATURE_LENGTH {
        return Err(VerificationError::MalformedSignature);
    }
    let message: Vec<u8> = message_to_verify(timestamp.as_bytes(), body);
    verdict(ed25519_verify(public_key.as_bytes(), message.as_slice(), signature_bytes.as_slice()))
}

/// A signature that does not decode to exactly 64 bytes is malformed, whatever
/// the key, the timestamp and the body: it is never reported as a mismatch.
pub proof fn lemma_wrong_length_is_malformed(
    public_key: Seq<u8>,
    signature: Seq<u8>,
    timestamp: Seq<u8>,
    body: Seq<u8>,
)
    requires
        decode_hex(signature) is None || decode_hex(signature)->0.len() != SIGNATURE_LENGTH,
    ensures
        verification(public_key, Some(signature), Some(timestamp), body) == Err::<
            (),
            VerificationError,
        >(VerificationError::MalformedSignature),
{
}

/// A request with both headers passes exactly when its signature decodes to 64
/// bytes that are a valid signature over the timestamp followed by the whole
/// body.
pub proof fn lemma_accepted_iff_valid(
    public_key: Seq<u8>,
    signature: Seq<u8>,
    timestamp: Seq<u8>,
    body: Seq<u8>,
)
    ensures
        verification(public_key, Some(signature), Some(timestamp), body) is Ok <==> {
            &&& decode_hex(signature) matches Some(bytes)
            &&& bytes.len() == SIGNATURE_LENGTH
            &&& ed25519_valid(public_key, timestamp + body, bytes)
        },
{
}

/// The outcome depends on the timestamp and the body only through the bytes
/// of the one followed by the other: every byte of both enters the signed
/// message, and nothing else of the request does.
pub proof fn lemma_signature_covers_concatenation(
    public_key: Seq<u8>,
    signature: Option<Seq<u8>>,
    timestamp: Seq<u8>,
    body: Seq<u8>,
    other_timestamp: Seq<u8>,
    other_body: Seq<u8>,
)
    requires
        timestamp + body == other_timestamp + other_body,
    ensures
        verification(public_key, signature, Some(timestamp), body) == verification(
            public_key,
            signature,
            Some(other_timestamp),
            other_body,
        ),
{
}

} // verus!
