//! Hexadecimal text, as the signature header and the public key carry it.

use vstd::prelude::*;

verus! {

/// The value of one hexadecimal digit, in either case.
pub open spec fn hex_digit(b: u8) -> Option<u8> {
    if 0x30 <= b <= 0x39 {
        Some((b - 0x30) as u8)
    } else if 0x61 <= b <= 0x66 {
        Some((b - 0x61 + 10) as u8)
    } else if 0x41 <= b <= 0x46 {
        Some((b - 0x41 + 10) as u8)
    } else {
        None
    }
}

/// Text of an even number of hexadecimal digits.
pub open spec fn is_hex(text: Seq<u8>) -> bool {
    &&& text.len() % 2 == 0
    &&& forall|i: int| 0 <= i < text.len() ==> hex_digit(#[trigger] text[i]) is Some
}

/// The byte that the digit pair at position `i` stands for.
pub open spec fn hex_pair(text: Seq<u8>, i: int) -> u8 {
    (hex_digit(text[2 * i])->0 * 16 + hex_digit(text[2 * i + 1])->0) as u8
}

/// The bytes that hexadecimal text stands for, pair by pair.
pub open spec fn hex_bytes(text: Seq<u8>) -> Seq<u8> {
    Seq::new(text.len() / 2, |i: int| hex_pair(text, i))
}

/// What decoding gives: the bytes of well-formed text, nothing otherwise.
pub open spec fn decode_hex(text: Seq<u8>) -> Option<Seq<u8>> {
    if is_hex(text) {
        Some(hex_bytes(text))
    } else {
        None
    }
}

/// The value of the digit `b`, if it is one.
pub fn digit_value(b: u8) -> (r: Option<u8>)
    ensures
        r == hex_digit(b),
        r matches Some(v) ==> v < 16,
{
    if 0x30 <= b && b <= 0x39 {
        Some(b - 0x30)
    } else if 0x61 <= b && b <= 0x66 {
        Some(b - 0x61 + 10)
    } else if 0x41 <= b && b <= 0x46 {
        Some(b - 0x41 + 10)
    } else {
        None
    }
}

/// Decodes hexadecimal text into bytes.
pub fn decode(text: &[u8]) -> (r: Option<Vec<u8>>)
    ensures
        match r {
            Some(bytes) => decode_hex(text@) == Some(bytes@),
            None => decode_hex(text@) is None,
        },
{
    let n: usize = text.len();
    if n % 2 != 0 {
        return None;
    }
    let mut bytes: Vec<u8> = Vec::new();
    let mut i: usize = 0;
    while i < n / 2
        invariant
            n == text@.len(),
            n % 2 == 0,
            i <= n / 2,
            bytes@.len() == i,
            forall|k: int| 0 <= k < 2 * i ==> hex_digit(#[trigger] text@[k]) is Some,
            forall|k: int| 0 <= k < i ==> #[trigger] bytes@[k] == hex_pair(text@, k),
        decreases n / 2 - i,
    {
        let high: u8 = match digit_value(text[2 * i]) {
            Some(v) => v,
            None => {
                return None;
            },
        };
        let low: u8 = match digit_value(text[2 * i + 1]) {
            Some(v) => v,
            None => {
                return None;
            },
        };
        bytes.push(high * 16 + low);
        i = i + 1;
    }
    assert(bytes@ =~= hex_bytes(text@));
    Some(bytes)
}

} // verus!
