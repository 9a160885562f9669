//! The battle lifecycle: creating heroes, starting battles and resolving
//! rounds, with deterministic entropy words. A word of 0 draws the start of
//! a range (and makes any chance succeed); a word of `u32::MAX` draws the
//! end (and makes any chance below one hundred percent fail).

use hero_battle::codec::encode_metadata;
use hero_battle::effects::{BattleAdvanced, BattleEnded, GameEvent, LedgerInstruction};
use hero_battle::game::Game;
use hero_battle::types::{Command, Config, Error, TokenMetadata, TokenType};

fn alice() -> u64 {
    1
}

fn bob() -> u64 {
    2
}

fn game_account() -> u64 {
    99
}

fn init_game(config: Config) -> Game {
    Game::new(alice(), game_account(), 1000, 0, 1, 0, Some(config))
}

/// The attribute bytes the host would store for the hero's weapon: the
/// metadata from the `SetAttribute` instruction of the creating call.
fn stored_weapon_attribute(instructions: &[LedgerInstruction]) -> Option<Vec<u8>> {
    for instruction in instructions {
        if let LedgerInstruction::SetAttribute { metadata, .. } = instruction {
            return Some(encode_metadata(metadata));
        }
    }
    None
}

fn stored_weapon_strength(instructions: &[LedgerInstruction]) -> u32 {
    for instruction in instructions {
        if let LedgerInstruction::SetAttribute { metadata, .. } = instruction {
            return metadata.strength;
        }
    }
    panic!("no attribute instruction");
}

#[test]
fn test_create_hero() {
    let mut config = Config::default();
    config.hero_initial_potion_count = 5;
    let mut game = init_game(config);

    // create a hero for bob
    let (hero, effects) = game.create_hero(bob(), &vec![0]);
    assert_eq!(hero.health, config.hero_max_health);
    assert_eq!(hero.potion_count, config.hero_initial_potion_count);

    // the hero is stored under bob's account
    assert_eq!(game.get_hero(bob()), Some(hero));

    // the weapon token is minted to bob, frozen, and given its attribute
    let strength = stored_weapon_strength(&effects.instructions);
    assert!(config.starting_weapon_strength_range.contains(strength));
    assert_eq!(
        effects.instructions,
        vec![
            LedgerInstruction::MintNft { recipient: bob(), token_id: hero.weapon_id },
            LedgerInstruction::Freeze { token_id: hero.weapon_id },
            LedgerInstruction::SetAttribute {
                token_id: hero.weapon_id,
                metadata: TokenMetadata { token_type: TokenType::Weapon, strength },
            },
        ]
    );
}

#[test]
fn test_start_battle() {
    let mut config = Config::default();
    config.enemy_health_range = (10, 20).into();
    config.enemy_strength_range = (30, 50).into();
    config.enemy_wearing_hat_chance = 100;
    let mut game = init_game(config);

    // starting a battle without a hero fails
    assert_eq!(game.start_battle(alice(), &vec![0, 0, 0]).unwrap_err(), Error::HeroNotFound);

    // create the hero and then start the battle
    game.create_hero(alice(), &vec![0]);
    let effects = game.start_battle(alice(), &vec![0, 0, u32::MAX]).unwrap();
    let hero = game.get_hero(alice()).unwrap();
    let enemy = hero.battle.unwrap().enemy;

    // enemy should be wearing a hat, minted to the game account with a hat attribute
    let hat_id = enemy.hat_id.unwrap();
    assert_eq!(
        effects.instructions,
        vec![
            LedgerInstruction::MintNft { recipient: game_account(), token_id: hat_id },
            LedgerInstruction::SetAttribute {
                token_id: hat_id,
                metadata: TokenMetadata { token_type: TokenType::Hat, strength: 0 },
            },
        ]
    );

    // the enemy stats should be in the correct ranges
    assert!(config.enemy_health_range.contains(enemy.health));
    assert!(config.enemy_strength_range.contains(enemy.strength));
    assert_eq!(enemy.health, 10);
    assert_eq!(enemy.strength, 50);

    // lets change the config to never make an enemy wear a hat
    let mut mutation = hero_battle::types::ConfigMutation::default();
    mutation.enemy_wearing_hat_chance = Some(0);
    game.mutate_config(alice(), mutation).unwrap();

    // bob starts a battle; his hat-chance word draws well above zero
    game.create_hero(bob(), &vec![0]);
    game.start_battle(bob(), &vec![u32::MAX, 0, 0]).unwrap();

    // ensure the enemy has no hat
    let hero = game.get_hero(bob()).unwrap();
    let enemy = hero.battle.unwrap().enemy;
    assert!(enemy.hat_id.is_none());
}

#[test]
fn test_start_battle_twice_replaces_enemy() {
    let mut game = init_game(Config::default());
    game.create_hero(alice(), &vec![0]);

    game.start_battle(alice(), &vec![u32::MAX, 0, 0]).unwrap();
    let first_enemy = game.get_hero(alice()).unwrap().battle.unwrap().enemy;

    // the second start replaces the battle wholesale: no stacking
    game.start_battle(alice(), &vec![u32::MAX, u32::MAX, u32::MAX]).unwrap();
    let hero = game.get_hero(alice()).unwrap();
    let second_battle = hero.battle.unwrap();
    assert_ne!(second_battle.enemy, first_enemy);
    assert_eq!(second_battle.round_number, 0);
    assert_eq!(second_battle.enemy.health, game.get_config().enemy_health_range.end);
}

#[test]
fn test_advance_battle() {
    // give hero and enemy a lot of health so they don't die
    let mut config = Config::default();
    config.hero_initial_potion_count = 0;
    config.hero_max_health = 100;
    config.enemy_health_range = (100, 100).into();
    let attack_variance = config.attack_variance;
    let mut game = init_game(config);
    let (_, create_effects) = game.create_hero(alice(), &vec![0]);
    let weapon_attribute = stored_weapon_attribute(&create_effects.instructions);
    let hero_strength = stored_weapon_strength(&create_effects.instructions);
    game.start_battle(alice(), &vec![u32::MAX, 0, 0]).unwrap();
    let initial_enemy = game.get_hero(alice()).unwrap().battle.unwrap().enemy;

    // make sure attack works; every entropy word of 0 draws the low end,
    // so both sides hit for their strength minus the variance
    let effects = game
        .advance_battle(alice(), Command::Attack, &weapon_attribute, &vec![0, 0, 0, 0])
        .unwrap();
    let hero = game.get_hero(alice()).unwrap();
    let battle = hero.battle.unwrap();

    // check hero health
    assert_eq!(hero.health, 100 - (initial_enemy.strength - attack_variance));

    // check enemy health
    assert_eq!(battle.enemy.health, initial_enemy.health - (hero_strength - attack_variance));
    assert_eq!(battle.round_number, 1);

    // the round's damage is reported before the round number advances
    assert_eq!(
        effects.events,
        vec![GameEvent::BattleAdvanced(BattleAdvanced {
            hero_id: alice(),
            round_number: 0,
            hero_damage_received: initial_enemy.strength - attack_variance,
            enemy_damage_received: hero_strength - attack_variance,
        })]
    );
    assert!(effects.instructions.is_empty());

    // trying to heal without potion fails, and health and round stand still
    assert_eq!(
        game.advance_battle(alice(), Command::Heal, &weapon_attribute, &vec![0, 0, 0, 0])
            .unwrap_err(),
        Error::HeroHasNoPotions
    );
    let unchanged = game.get_hero(alice()).unwrap();
    assert_eq!(unchanged.health, hero.health);
    assert_eq!(unchanged.battle.unwrap(), battle);

    // give the hero a potion
    let mut hero = game.get_hero(alice()).unwrap();
    let enemy_health = hero.battle.unwrap().enemy.health;
    hero.health = 50;
    hero.potion_count = 1;
    game.heroes.insert(alice(), hero);

    // now healing works: full health, less the enemy's strike
    game.advance_battle(alice(), Command::Heal, &weapon_attribute, &vec![0, 0, 0, 0]).unwrap();
    let hero = game.get_hero(alice()).unwrap();
    assert!(hero.health > 50);
    assert_eq!(hero.health, 100 - (initial_enemy.strength - attack_variance));
    assert_eq!(hero.potion_count, 0);
    assert_eq!(hero.battle.unwrap().enemy.health, enemy_health);
}

#[test]
fn test_advance_battle_without_battle_fails() {
    let mut game = init_game(Config::default());
    game.create_hero(alice(), &vec![0]);
    let before = game.get_hero(alice()).unwrap();
    assert_eq!(
        game.advance_battle(alice(), Command::Attack, &None, &vec![0, 0, 0, 0]).unwrap_err(),
        Error::HeroNotInBattle
    );
    assert_eq!(game.get_hero(alice()), Some(before));
    assert_eq!(
        game.advance_battle(bob(), Command::Attack, &None, &vec![0, 0, 0, 0]).unwrap_err(),
        Error::HeroNotFound
    );
}

#[test]
fn test_advance_battle_validates_weapon() {
    let mut game = init_game(Config::default());
    game.create_hero(alice(), &vec![0]);
    game.start_battle(alice(), &vec![u32::MAX, u32::MAX, 0]).unwrap();
    let before = game.get_hero(alice()).unwrap();

    // an attack with no stored weapon attribute is invalid equipment
    assert_eq!(
        game.advance_battle(alice(), Command::Attack, &None, &vec![0, 0, 0, 0]).unwrap_err(),
        Error::InvalidEquipment
    );
    assert_eq!(game.get_hero(alice()), Some(before));

    // an attack with undecodable attribute bytes is a decode failure
    assert_eq!(
        game.advance_battle(alice(), Command::Attack, &Some(vec![7]), &vec![0, 0, 0, 0])
            .unwrap_err(),
        Error::AttributeDecodeFailed
    );
    assert_eq!(game.get_hero(alice()), Some(before));
}

#[test]
fn test_win_battle() {
    let mut config = Config::default();
    config.enemy_health_range = (1, 1).into();
    config.enemy_wearing_hat_chance = 100;
    let mut game = init_game(config);
    let caller = bob();

    let (_, create_effects) = game.create_hero(caller, &vec![0]);
    let weapon_attribute = stored_weapon_attribute(&create_effects.instructions);
    game.start_battle(caller, &vec![0, 0, 0]).unwrap();
    let hat_id = game.get_hero(caller).unwrap().battle.unwrap().enemy.hat_id.unwrap();

    // defeat the enemy: the hero goes first and any hit fells one health
    let effects = game
        .advance_battle(caller, Command::Attack, &weapon_attribute, &vec![0, 0, 0, 0])
        .unwrap();

    let hero = game.get_hero(caller).unwrap();
    assert!(hero.battle.is_none());
    assert_eq!(hero.consecutive_victory_count, 1);
    assert_eq!(hero.highest_consecutive_victory_count, 1);

    // the correct amount of gold is minted and the hat is handed over
    let gold_range = game.get_config().enemy_gold_drop_range;
    match effects.instructions[0] {
        LedgerInstruction::MintGold { recipient, amount } => {
            assert_eq!(recipient, caller);
            assert!(gold_range.contains(amount as u32));
        }
        ref other => panic!("expected gold mint, got {:?}", other),
    }
    assert_eq!(
        effects.instructions[1],
        LedgerInstruction::TransferToken { recipient: caller, token_id: hat_id }
    );
    assert_eq!(effects.instructions.len(), 2);

    // the battle ended in a win after one round
    assert_eq!(
        effects.events[1],
        GameEvent::BattleEnded(BattleEnded { hero_id: caller, hero_wins: true, round_count: 1 })
    );
}

#[test]
fn test_lose_battle() {
    let mut config = Config::default();
    config.enemy_wearing_hat_chance = 100;
    let mut game = init_game(config);
    let (_, create_effects) = game.create_hero(alice(), &vec![0]);
    let weapon_attribute = stored_weapon_attribute(&create_effects.instructions);
    game.start_battle(alice(), &vec![0, 0, 0]).unwrap();

    // set hero health to 1 and increase the victory streak
    let mut hero = game.get_hero(alice()).unwrap();
    hero.health = 1;
    hero.consecutive_victory_count = 5;
    hero.highest_consecutive_victory_count = 5;
    game.heroes.insert(alice(), hero);
    let hat_id = hero.battle.unwrap().enemy.hat_id.unwrap();

    // lose the battle: the enemy goes first and any strike fells one health
    let effects = game
        .advance_battle(alice(), Command::Attack, &weapon_attribute, &vec![u32::MAX, 0, 0, 0])
        .unwrap();
    let hero = game.get_hero(alice()).unwrap();
    assert!(hero.battle.is_none());

    // health and victory count should be reset; the highest streak stands
    assert_eq!(hero.health, game.get_config().hero_max_health);
    assert_eq!(hero.consecutive_victory_count, 0);
    assert_eq!(hero.highest_consecutive_victory_count, 5);

    // the hat token was burned, not handed over
    assert_eq!(effects.instructions, vec![LedgerInstruction::BurnToken { token_id: hat_id }]);
    assert_eq!(
        effects.events[1],
        GameEvent::BattleEnded(BattleEnded { hero_id: alice(), hero_wins: false, round_count: 1 })
    );
}

#[test]
fn test_get_hero_idempotent() {
    let mut game = init_game(Config::default());
    game.create_hero(alice(), &vec![0]);
    let first = game.get_hero(alice());
    let second = game.get_hero(alice());
    assert_eq!(first, second);
    assert_eq!(game.get_hero(bob()), None);
    assert_eq!(game.get_hero(bob()), game.get_hero(bob()));
}
