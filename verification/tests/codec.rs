//! Attribute byte codec: encoding, decoding and the attribute key.

use hero_battle::codec::{attribute_key, decode_metadata, encode_metadata};
use hero_battle::game::Game;
use hero_battle::types::{Config, Error, TokenMetadata, TokenType};

#[test]
fn test_attribute_key_is_equipment() {
    assert_eq!(attribute_key(), b"equipment".to_vec());
}

#[test]
fn test_encode_metadata_bytes() {
    let metadata = TokenMetadata { token_type: TokenType::Weapon, strength: 0x0102_0304 };
    assert_eq!(encode_metadata(&metadata), vec![1, 0x04, 0x03, 0x02, 0x01]);
    let metadata = TokenMetadata { token_type: TokenType::Hat, strength: 0 };
    assert_eq!(encode_metadata(&metadata), vec![2, 0, 0, 0, 0]);
}

#[test]
fn test_metadata_round_trip() {
    for strength in [0u32, 1, 7, 1000, u32::MAX] {
        for token_type in [TokenType::Weapon, TokenType::Hat] {
            let metadata = TokenMetadata { token_type, strength };
            assert_eq!(decode_metadata(&encode_metadata(&metadata)), Some(metadata));
        }
    }
}

#[test]
fn test_decode_metadata_rejects_bad_bytes() {
    // wrong length
    assert_eq!(decode_metadata(&vec![]), None);
    assert_eq!(decode_metadata(&vec![1, 0, 0, 0]), None);
    assert_eq!(decode_metadata(&vec![1, 0, 0, 0, 0, 0]), None);
    // unknown token type tag
    assert_eq!(decode_metadata(&vec![0, 0, 0, 0, 0]), None);
    assert_eq!(decode_metadata(&vec![3, 5, 0, 0, 0]), None);
}

#[test]
fn test_get_metadata() {
    let game = Game::new(1, 99, 1000, 0, 1, 0, Some(Config::default()));

    // a token without the attribute has no metadata
    assert_eq!(game.get_metadata(&None), Ok(None));

    // stored bytes decode back to the stored value
    let metadata = TokenMetadata { token_type: TokenType::Hat, strength: 9 };
    let bytes = encode_metadata(&metadata);
    assert_eq!(game.get_metadata(&Some(bytes)), Ok(Some(metadata)));

    // bytes that do not decode are a decode failure
    assert_eq!(
        game.get_metadata(&Some(vec![9, 9])),
        Err(Error::AttributeDecodeFailed)
    );
}
