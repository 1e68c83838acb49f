//! The input category and its one-byte wire encoding.

use vstd::prelude::*;

verus! {

/// The reserved control byte (ASCII `Z`): a client that sends it asks the
/// server to terminate. It is disjoint from every category encoding.
pub const EXIT_BYTE: u8 = 0x5a;

/// The two-valued input mode the indicator displays.
#[derive(Clone, Copy, Debug, PartialEq, Eq, Structural)]
pub enum InputCategory {
    /// Latin input; the default category, encoded as `0` on the wire.
    Latin,
    /// Hangul input, encoded as `1` on the wire.
    Hangul,
}

/// The byte a category is encoded as on the wire.
pub open spec fn encode_spec(category: InputCategory) -> u8 {
    match category {
        InputCategory::Latin => 0u8,
        InputCategory::Hangul => 1u8,
    }
}

/// The category a wire byte decodes to: `1` means hangul, every other
/// byte falls back to latin. Decoding never fails.
pub open spec fn decode_spec(byte: u8) -> InputCategory {
    if byte == 1u8 {
        InputCategory::Hangul
    } else {
        InputCategory::Latin
    }
}

impl InputCategory {
    /// Encode this category as its wire byte.
    pub fn encode(self) -> (byte: u8)
        ensures
            byte == encode_spec(self),
            byte != EXIT_BYTE,
    {
        match self {
            InputCategory::Latin => 0,
            InputCategory::Hangul => 1,
        }
    }

    /// Decode a wire byte into a category; unrecognized bytes yield latin.
    pub fn decode(byte: u8) -> (category: InputCategory)
        ensures
            category == decode_spec(byte),
    {
        if byte == 1 {
            InputCategory::Hangul
        } else {
            InputCategory::Latin
        }
    }
}

/// Encoding then decoding gives back the category it started from.
pub proof fn lemma_encode_decode_roundtrip(category: InputCategory)
    ensures
        decode_spec(encode_spec(category)) == category,
{
}

/// A byte outside the valid encodings decodes to the default category,
/// latin; no byte is rejected.
pub proof fn lemma_decode_unknown_defaults(byte: u8)
    requires
        byte != encode_spec(InputCategory::Hangul),
    ensures
        decode_spec(byte) == InputCategory::Latin,
{
}

/// The control byte never collides with a category encoding.
pub proof fn lemma_exit_byte_disjoint(category: InputCategory)
    ensures
        encode_spec(category) != EXIT_BYTE,
{
}

} // verus!
