//! Byte encoding of the equipment metadata stored on the external ledger.
//!
//! An equipment attribute is five bytes: one tag byte naming the token type,
//! followed by the strength value in little-endian order. The host stores the
//! bytes verbatim under the equipment attribute key and hands them back
//! unchanged, so encoding and decoding round-trip inside the core.

use crate::types::{TokenMetadata, TokenType};
use vstd::bytes::{
    lemma_auto_spec_u32_to_from_le_bytes, spec_u32_from_le_bytes, spec_u32_to_le_bytes,
    u32_from_le_bytes, u32_to_le_bytes,
};
use vstd::prelude::*;

verus! {

/// Length in bytes of an encoded equipment attribute.
pub const METADATA_BYTE_LEN: usize = 5;

/// The bytes that encoding a metadata value produces.
pub open spec fn encode_metadata_spec(metadata: TokenMetadata) -> Seq<u8> {
    seq![metadata.token_type.spec_value()] + spec_u32_to_le_bytes(metadata.strength)
}

/// The metadata value that a byte string decodes to, if it is well-formed:
/// exactly five bytes whose first byte is a known token-type tag.
pub open spec fn decode_metadata_spec(bytes: Seq<u8>) -> Option<TokenMetadata> {
    if bytes.len() == METADATA_BYTE_LEN && TokenType::spec_from_value(bytes[0]) is Some {
        Some(
            TokenMetadata {
                token_type: TokenType::spec_from_value(bytes[0])->0,
                strength: spec_u32_from_le_bytes(bytes.subrange(1, 5)),
            },
        )
    } else {
        None
    }
}

/// Encode a metadata value as attribute bytes.
pub fn encode_metadata(metadata: &TokenMetadata) -> (r: Vec<u8>)
    ensures
        r@ == encode_metadata_spec(*metadata),
        r@.len() == METADATA_BYTE_LEN,
{
    let mut out: Vec<u8> = Vec::new();
    out.push(metadata.token_type.value());
    let mut strength_bytes = u32_to_le_bytes(metadata.strength);
    out.append(&mut strength_bytes);
    proof {
        assert(out@ =~= encode_metadata_spec(*metadata));
    }
    out
}

/// Decode attribute bytes back into a metadata value.
pub fn decode_metadata(bytes: &Vec<u8>) -> (r: Option<TokenMetadata>)
    ensures
        r == decode_metadata_spec(bytes@),
{
    if bytes.len() != METADATA_BYTE_LEN {
        return None;
    }
    let token_type = match TokenType::from_value(bytes[0]) {
        Some(t) => t,
        None => {
            return None;
        },
    };
    let mut strength_bytes: Vec<u8> = Vec::new();
    strength_bytes.push(bytes[1]);
    strength_bytes.push(bytes[2]);
    strength_bytes.push(bytes[3]);
    strength_bytes.push(bytes[4]);
    proof {
        assert(strength_bytes@ =~= bytes@.subrange(1, 5));
    }
    let strength = u32_from_le_bytes(strength_bytes.as_slice());
    Some(TokenMetadata { token_type, strength })
}

/// The bytes of the attribute key under which equipment metadata is stored:
/// the word "equipment".
pub open spec fn attribute_key_spec() -> Seq<u8> {
    seq![101u8, 113u8, 117u8, 105u8, 112u8, 109u8, 101u8, 110u8, 116u8]
}

/// The attribute key used for equipment
pub fn attribute_key() -> (r: Vec<u8>)
    ensures
        r@ == attribute_key_spec(),
{
    let mut key: Vec<u8> = Vec::new();
    key.push(101);
    key.push(113);
    key.push(117);
    key.push(105);
    key.push(112);
    key.push(109);
    key.push(101);
    key.push(110);
    key.push(116);
    proof {
        assert(key@ =~= attribute_key_spec());
    }
    key
}

/// Encoding then decoding hands the same metadata back.
pub proof fn lemma_metadata_round_trip(metadata: TokenMetadata)
    ensures
        decode_metadata_spec(encode_metadata_spec(metadata)) == Some(metadata),
{
    lemma_auto_spec_u32_to_from_le_bytes();
    let encoded = encode_metadata_spec(metadata);
    assert(encoded.subrange(1, 5) =~= spec_u32_to_le_bytes(metadata.strength));
}

} // verus!
