//! Hero progression outside of battle: equipment, resting and purchases.

use hero_battle::codec::encode_metadata;
use hero_battle::effects::{GameEvent, LedgerInstruction};
use hero_battle::game::Game;
use hero_battle::types::{Config, Error, TokenMetadata, TokenType};

fn alice() -> u64 {
    1
}

fn game_account() -> u64 {
    99
}

fn init_game(config: Config) -> Game {
    Game::new(alice(), game_account(), 1000, 0, 1, 0, Some(config))
}

fn weapon_bytes(strength: u32) -> Vec<u8> {
    encode_metadata(&TokenMetadata { token_type: TokenType::Weapon, strength })
}

fn hat_bytes() -> Vec<u8> {
    encode_metadata(&TokenMetadata { token_type: TokenType::Hat, strength: 0 })
}

#[test]
fn test_set_hero_equipment() {
    let mut game = init_game(Config::default());
    let (hero, _) = game.create_hero(alice(), &vec![0]);
    let initial_weapon_id = hero.weapon_id;

    // cannot equip a token that has no equipment attribute
    assert_eq!(game.equip(alice(), 10, &None).unwrap_err(), Error::InvalidEquipment);

    // an attribute that does not decode fails as well
    assert_eq!(
        game.equip(alice(), 10, &Some(vec![0, 1])).unwrap_err(),
        Error::AttributeDecodeFailed
    );

    // with a weapon attribute it works: old weapon thawed, new one frozen
    let new_weapon_id: u128 = 10;
    let effects = game.equip(alice(), new_weapon_id, &Some(weapon_bytes(1))).unwrap();
    assert_eq!(
        effects.instructions,
        vec![
            LedgerInstruction::Thaw { token_id: initial_weapon_id },
            LedgerInstruction::Freeze { token_id: new_weapon_id },
        ]
    );

    let hero = game.get_hero(alice()).unwrap();
    assert_eq!(hero.weapon_id, new_weapon_id);
}

#[test]
fn test_equip_and_unequip_hat() {
    let mut game = init_game(Config::default());
    game.create_hero(alice(), &vec![0]);

    // equipping without a hero fails
    assert_eq!(game.equip(2, 11, &Some(hat_bytes())).unwrap_err(), Error::HeroNotFound);

    // a first hat has nothing to thaw
    let effects = game.equip(alice(), 11, &Some(hat_bytes())).unwrap();
    assert_eq!(effects.instructions, vec![LedgerInstruction::Freeze { token_id: 11 }]);
    assert_eq!(game.get_hero(alice()).unwrap().hat_id, Some(11));

    // a second hat thaws the first
    let effects = game.equip(alice(), 12, &Some(hat_bytes())).unwrap();
    assert_eq!(
        effects.instructions,
        vec![
            LedgerInstruction::Thaw { token_id: 11 },
            LedgerInstruction::Freeze { token_id: 12 },
        ]
    );
    assert_eq!(game.get_hero(alice()).unwrap().hat_id, Some(12));

    // unequip removes the hat and reports it
    let effects = game.unequip_hat(alice()).unwrap();
    assert_eq!(game.get_hero(alice()).unwrap().hat_id, None);
    assert_eq!(effects.events.len(), 1);
    assert!(effects.instructions.is_empty());

    // unequipping with no hat is a quiet success
    let effects = game.unequip_hat(alice()).unwrap();
    assert!(effects.events.is_empty());
    assert_eq!(game.unequip_hat(7).unwrap_err(), Error::HeroNotFound);
}

#[test]
fn test_rest() {
    let mut config = Config::default();
    config.rest_cost = 10;
    let mut game = init_game(config);

    // cannot rest without hero
    assert_eq!(game.rest(alice(), 20), Err(Error::HeroNotFound));

    // create hero with 1 health
    let (mut hero, _) = game.create_hero(alice(), &vec![0]);
    hero.health = 1;
    game.heroes.insert(alice(), hero);

    // cant rest if you don't have enough gold
    assert_eq!(game.rest(alice(), 9), Err(Error::NotEnoughGold));
    assert_eq!(game.get_hero(alice()).unwrap().health, 1);

    // with enough gold the rest collects the cost and restores health
    let effects = game.rest(alice(), 20).unwrap();
    assert_eq!(
        effects.instructions,
        vec![
            LedgerInstruction::TransferGold { source: alice(), amount: 10 },
            LedgerInstruction::BurnGold { amount: 10 },
        ]
    );
    assert!(matches!(effects.events[..], [GameEvent::Rested(_)]));
    assert_eq!(game.get_hero(alice()).unwrap().health, config.hero_max_health);
}

#[test]
fn test_rest_in_battle_fails() {
    let mut game = init_game(Config::default());
    game.create_hero(alice(), &vec![0]);
    game.start_battle(alice(), &vec![u32::MAX, 0, 0]).unwrap();
    assert_eq!(game.rest(alice(), 1000), Err(Error::HeroIsInBattle));
}

#[test]
fn test_buy_potion() {
    let mut config = Config::default();
    config.potion_cost = 10;
    config.hero_initial_potion_count = 0;
    let mut game = init_game(config);

    // cannot buy without hero
    assert_eq!(game.buy_potion(alice(), 1, 20), Err(Error::HeroNotFound));

    // cant buy if you don't have enough gold
    game.create_hero(alice(), &vec![0]);
    assert_eq!(game.buy_potion(alice(), 2, 15), Err(Error::NotEnoughGold));
    assert_eq!(game.get_hero(alice()).unwrap().potion_count, 0);

    // with enough gold the purchase collects the cost and adds the potions
    let effects = game.buy_potion(alice(), 2, 20).unwrap();
    assert_eq!(
        effects.instructions,
        vec![
            LedgerInstruction::TransferGold { source: alice(), amount: 20 },
            LedgerInstruction::BurnGold { amount: 20 },
        ]
    );
    assert_eq!(game.get_hero(alice()).unwrap().potion_count, 2);
}

#[test]
fn test_buy_weapon() {
    let mut config = Config::default();
    config.weapon_cost = 10;
    config.purchased_weapon_strength_range = (50, 100).into();
    let mut game = init_game(config);

    // cannot buy without hero
    assert_eq!(
        game.buy_weapon(alice(), 10, &vec![0]).unwrap_err(),
        Error::HeroNotFound
    );

    // cant buy if you don't have enough gold
    game.create_hero(alice(), &vec![0]);
    assert_eq!(
        game.buy_weapon(alice(), 0, &vec![0]).unwrap_err(),
        Error::NotEnoughGold
    );

    // can now buy the weapon
    let (weapon_id, effects) = game.buy_weapon(alice(), 10, &vec![u32::MAX]).unwrap();
    assert_eq!(weapon_id, 2);

    // its strength should match the config
    let strength = match effects.instructions[3] {
        LedgerInstruction::SetAttribute { token_id, metadata } => {
            assert_eq!(token_id, weapon_id);
            assert_eq!(metadata.token_type, TokenType::Weapon);
            metadata.strength
        }
        ref other => panic!("expected attribute write, got {:?}", other),
    };
    assert!(config.purchased_weapon_strength_range.contains(strength));
    assert_eq!(strength, 100);

    // the new weapon is minted to the buyer, unfrozen and unequipped
    assert_eq!(
        effects.instructions[2],
        LedgerInstruction::MintNft { recipient: alice(), token_id: weapon_id }
    );
    assert_eq!(game.get_hero(alice()).unwrap().weapon_id, 1);
}
