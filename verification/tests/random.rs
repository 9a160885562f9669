//! Randomness: interpolation, chance, attack power and entropy subjects.

use hero_battle::game::{entropy_word, Game};
use hero_battle::random::lerp;
use hero_battle::types::{Config, Range};

fn alice() -> u64 {
    1
}

fn game_account() -> u64 {
    99
}

fn init_game(config: Config) -> Game {
    Game::new(alice(), game_account(), 1000, 0, 1, 0, Some(config))
}

#[test]
fn test_lerp() {
    assert_eq!(lerp(0, 100, u32::MAX), 100);
    assert_eq!(lerp(0, 100, (u32::MAX / 2) + 1), 50);
    assert_eq!(lerp(0, 100, (u32::MAX / 10) + 1), 10);
    assert_eq!(lerp(5, 100, 0), 5);
}

#[test]
fn test_range() {
    let range = Range { start: 5, end: 10 };

    // contains
    assert!(range.contains(5));
    assert!(range.contains(7));
    assert!(range.contains(10));

    // does not contain
    assert!(!range.contains(4));
    assert!(!range.contains(11));
}

#[test]
fn test_calculate_attack_power() {
    fn new_game_with_attack_variance(attack_variance: u32) -> Game {
        let mut config = Config::default();
        config.attack_variance = attack_variance;
        init_game(config)
    }

    let spread: [u32; 10] = [
        0,
        1,
        u32::MAX,
        u32::MAX / 2,
        u32::MAX / 3,
        u32::MAX / 4,
        u32::MAX / 5,
        u32::MAX / 7,
        12345,
        3_000_000_000,
    ];

    // verify several cases of variance 2
    let mut game = new_game_with_attack_variance(2);
    for t in spread {
        assert!(Range::new(8, 12).contains(game.calculate_attack_power(10, t)));
    }

    // verify several cases of variance 5
    let mut game = new_game_with_attack_variance(5);
    for t in spread {
        assert!(Range::new(5, 15).contains(game.calculate_attack_power(10, t)));
    }

    // verify several cases of variance 0
    let mut game = new_game_with_attack_variance(0);
    for t in spread {
        assert_eq!(game.calculate_attack_power(10, t), 10);
    }

    // the extreme words hit the exact bounds
    let mut game = new_game_with_attack_variance(2);
    assert_eq!(game.calculate_attack_power(10, 0), 8);
    assert_eq!(game.calculate_attack_power(10, u32::MAX), 12);

    // a base strength below the variance clamps to zero instead of wrapping
    let mut game = new_game_with_attack_variance(5);
    assert_eq!(game.calculate_attack_power(1, 0), 0);
}

#[test]
fn test_random_chance_extremes() {
    let mut game = init_game(Config::default());
    for t in [0u32, 1, u32::MAX / 2, u32::MAX - 1, u32::MAX] {
        assert!(game.random_chance(100, t));
    }
    // a zero chance holds only on a draw of exactly zero
    assert!(game.random_chance(0, 0));
    assert!(!game.random_chance(0, u32::MAX));
    assert!(!game.random_chance(0, u32::MAX / 2));
}

#[test]
fn test_random_in_range_bounds() {
    let mut game = init_game(Config::default());
    let range = Range::new(30, 60);
    for t in [0u32, 1, u32::MAX / 7, u32::MAX / 3, u32::MAX / 2, u32::MAX - 1, u32::MAX] {
        assert!(range.contains(game.random_in_range(range, t)));
    }
    assert_eq!(game.random_in_range(Range::new(30, 60), 0), 30);
    assert_eq!(game.random_in_range(Range::new(30, 60), u32::MAX), 60);
}

#[test]
fn test_nonce_advances_every_draw() {
    let mut game = init_game(Config::default());
    assert_eq!(game.random_nonce, 0);
    game.random_in_range(Range::new(0, 10), 7);
    assert_eq!(game.random_nonce, 1);
    game.random_chance(50, 7);
    assert_eq!(game.random_nonce, 2);
    game.calculate_attack_power(10, 7);
    assert_eq!(game.random_nonce, 3);
}

#[test]
fn test_draw_subject_bytes() {
    let mut config = Config::default();
    config.attack_variance = 0;
    let mut game = Game::new(alice(), game_account(), 1000, 0, 1, 0x0102_0304, Some(config));
    game.random_in_range(Range::new(0, 10), 0);
    game.random_in_range(Range::new(0, 10), 0);
    assert_eq!(game.random_nonce, 2);

    // seed, nonce and block number, each little-endian
    let subject = game.draw_subject(1, 0x11223344);
    assert_eq!(
        subject,
        vec![0x04, 0x03, 0x02, 0x01, 3, 0, 0, 0, 0x44, 0x33, 0x22, 0x11]
    );
}

#[test]
fn test_entropy_word_decodes_hash_prefix() {
    let mut hash = vec![0x78, 0x56, 0x34, 0x12];
    hash.resize(32, 0xAA);
    assert_eq!(entropy_word(&hash), 0x1234_5678);
}

#[test]
fn test_entropy_word_ignores_trailing_bytes() {
    // the word depends only on the first four bytes, in little-endian order
    assert_eq!(entropy_word(&vec![1, 0, 0, 0, 9, 9]), 1);
    assert_eq!(entropy_word(&vec![0, 0, 0, 0x80, 7]), 0x8000_0000);
}
