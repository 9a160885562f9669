//! The game engine: battle lifecycle, hero progression and the seeded
//! randomness state, threaded through every call via ownership.
//!
//! Every operation is deterministic in its arguments. Readings of the host
//! environment enter as plain values: the caller identity, the gold balance
//! of an account, the attribute bytes stored on a token, and the entropy
//! words decoded from the randomness beacon (one word per draw, keyed by the
//! subjects that [`Game::draw_subject`] builds). Ledger work leaves as
//! [`Effects`] for the host to execute.

use crate::codec::decode_metadata;
use crate::codec::decode_metadata_spec;
use crate::effects::{
    BattleAdvanced, BattleEnded, BattleStarted, Effects, EquipmentChanged, GameEvent, HeroCreated,
    LedgerInstruction, Rested, WeaponPurchased,
};
use crate::random::{attack_power_spec, chance_spec, lemma_lerp_bounds, lerp, lerp_spec};
use crate::types::{
    AccountId, Battle, CollectionId, Command, Config, ConfigMutation, Enemy, Error, Hero, Range,
    TokenBalance, TokenId, TokenMetadata, TokenType,
};
use std::collections::HashMap;
use vstd::bytes::{spec_u32_from_le_bytes, spec_u32_to_le_bytes, u32_from_le_bytes, u32_to_le_bytes};
use vstd::prelude::*;

verus! {

broadcast use vstd::std_specs::hash::group_hash_axioms;

/// The state of one game instance.
pub struct Game {
    /// The configuration for the game
    pub config: Config,
    /// The owner of the game, the only account allowed to change the config
    pub owner: AccountId,
    /// The game's own ledger account, which holds enemy equipment
    pub account_id: AccountId,
    /// The collection id that all tokens of the game use
    pub collection_id: CollectionId,
    /// The id of the token used as gold
    pub gold_token_id: TokenId,
    /// The id used for the next equipment token
    pub next_token_id: TokenId,
    /// The nonce used for randomness
    pub random_nonce: u32,
    /// The seed used for randomness
    pub random_seed: u32,
    /// A map of heroes by account id
    pub heroes: HashMap<AccountId, Hero>,
}

/// The view of an optional attribute reading: its bytes, if the token has
/// the attribute.
pub open spec fn attribute_view(attribute: Option<Vec<u8>>) -> Option<Seq<u8>> {
    match attribute {
        None => None,
        Some(bytes) => Some(bytes@),
    }
}

/// What reading an attribute as metadata yields: nothing for an absent
/// attribute, the decoded value for well-formed bytes, and a decode error
/// otherwise.
pub open spec fn spec_metadata_of(attribute: Option<Seq<u8>>) -> Result<
    Option<TokenMetadata>,
    Error,
> {
    match attribute {
        None => Ok(None),
        Some(bytes) => match decode_metadata_spec(bytes) {
            Some(m) => Ok(Some(m)),
            None => Err(Error::AttributeDecodeFailed),
        },
    }
}

/// The metadata of an equipped weapon: an absent attribute is invalid
/// equipment, bytes that do not decode are a decode failure.
pub open spec fn spec_weapon_metadata(attribute: Option<Seq<u8>>) -> Result<TokenMetadata, Error> {
    match spec_metadata_of(attribute) {
        Ok(None) => Err(Error::InvalidEquipment),
        Ok(Some(m)) => Ok(m),
        Err(e) => Err(e),
    }
}

impl Game {
    /// The game is well-formed: its configuration is, and every stored hero
    /// keeps the win-streak bookkeeping consistent.
    pub open spec fn wf(self) -> bool {
        &&& self.config.wf()
        &&& forall|a: AccountId|
            self.heroes@.contains_key(a) ==> (#[trigger] self.heroes@[a]).wf()
    }

    /// The hero stored for an account, if any.
    pub open spec fn spec_hero(self, account_id: AccountId) -> Option<Hero> {
        if self.heroes@.contains_key(account_id) {
            Some(self.heroes@[account_id])
        } else {
            None
        }
    }

    /// Create a new game instance.
    ///
    /// `owner` is the account allowed to mutate the configuration and
    /// `account_id` is the game's own ledger account; the entry-point layer
    /// reads both from its environment. Token ids for equipment are
    /// allocated upward from `initial_token_id`, which must differ from the
    /// id of the gold token. If no config is provided, default values are
    /// used.
    pub fn new(
        owner: AccountId,
        account_id: AccountId,
        collection_id: CollectionId,
        gold_token_id: TokenId,
        initial_token_id: TokenId,
        random_seed: u32,
        config: Option<Config>,
    ) -> (g: Game)
        requires
            gold_token_id != initial_token_id,
            config is Some ==> config->0.wf(),
        ensures
            g == (Game {
                config: if config is Some {
                    config->0
                } else {
                    Config::spec_default()
                },
                owner,
                account_id,
                collection_id,
                gold_token_id,
                next_token_id: initial_token_id,
                random_nonce: 0,
                random_seed,
                heroes: g.heroes,
            }),
            g.heroes@ == Map::<AccountId, Hero>::empty(),
            g.wf(),
    {
        let config = match config {
            Some(c) => c,
            None => Config::default(),
        };
        Game {
            config,
            owner,
            account_id,
            collection_id,
            gold_token_id,
            next_token_id: initial_token_id,
            random_nonce: 0,
            random_seed,
            heroes: HashMap::new(),
        }
    }

    /// Returns the game's config
    pub fn get_config(&self) -> (c: Config)
        ensures
            c == self.config,
    {
        self.config
    }

    /// Returns the `Hero` for `account_id` if it exists
    pub fn get_hero(&self, account_id: AccountId) -> (r: Option<Hero>)
        ensures
            r == self.spec_hero(account_id),
    {
        match self.heroes.get(&account_id) {
            Some(h) => Some(*h),
            None => None,
        }
    }

    /// Returns the `TokenMetadata` held in a token's attribute bytes, if the
    /// token has the attribute. The host reads the bytes from the ledger
    /// under [`crate::codec::attribute_key`] and passes them through
    /// unchanged.
    pub fn get_metadata(&self, attribute: &Option<Vec<u8>>) -> (r: Result<
        Option<TokenMetadata>,
        Error,
    >)
        ensures
            r == spec_metadata_of(attribute_view(*attribute)),
    {
        match attribute {
            None => Ok(None),
            Some(bytes) => match decode_metadata(bytes) {
                Some(m) => Ok(Some(m)),
                None => Err(Error::AttributeDecodeFailed),
            },
        }
    }

    /// The 12-byte entropy subject for the draw `draw_index` steps ahead of
    /// the current nonce: seed, nonce and the host's monotonic block number,
    /// each in little-endian order. The host keys the randomness beacon with
    /// this subject and hands the first four hash bytes back through
    /// [`entropy_word`].
    pub fn draw_subject(&self, draw_index: u32, block_number: u32) -> (r: Vec<u8>)
        requires
            self.random_nonce + draw_index <= u32::MAX,
        ensures
            r@ == spec_u32_to_le_bytes(self.random_seed) + spec_u32_to_le_bytes(
                (self.random_nonce + draw_index) as u32,
            ) + spec_u32_to_le_bytes(block_number),
            r@.len() == 12,
    {
        let mut subject = u32_to_le_bytes(self.random_seed);
        let mut nonce_bytes = u32_to_le_bytes(self.random_nonce + draw_index);
        let mut block_bytes = u32_to_le_bytes(block_number);
        subject.append(&mut nonce_bytes);
        subject.append(&mut block_bytes);
        subject
    }

    /// Map one entropy word into `range`, inclusive on both ends, and
    /// consume the draw's nonce.
    ///
    /// `t` is the word the host decoded from the randomness beacon's hash
    /// for this draw's subject; the beacon, not the core, is what makes the
    /// stream unpredictable.
    pub fn random_in_range(&mut self, range: Range, t: u32) -> (r: u32)
        requires
            range.wf(),
            old(self).random_nonce < u32::MAX,
        ensures
            r == lerp_spec(range.start as int, range.end as int, t as int),
            range.spec_contains(r),
            *final(self) == old(self).with_nonce((old(self).random_nonce + 1) as u32),
    {
        // the nonce is consumed unconditionally, so no draw can ever reuse it
        self.random_nonce = self.random_nonce + 1;
        lerp(range.start, range.end, t)
    }

    /// True with probability `chance` percent: the draw over `[0, 100]` does
    /// not exceed `chance`.
    pub fn random_chance(&mut self, chance: u32, t: u32) -> (r: bool)
        requires
            old(self).random_nonce < u32::MAX,
        ensures
            r == chance_spec(chance, t),
            *final(self) == old(self).with_nonce((old(self).random_nonce + 1) as u32),
    {
        self.random_in_range(Range::new(0, 100), t) <= chance
    }

    /// Attack power for a base strength: the configured variance spreads the
    /// result symmetrically around `strength`, clamped to the unsigned range.
    pub fn calculate_attack_power(&mut self, strength: u32, t: u32) -> (r: u32)
        requires
            old(self).config.wf(),
            old(self).random_nonce < u32::MAX,
        ensures
            r == attack_power_spec(strength, old(self).config.attack_variance, t),
            *final(self) == old(self).with_nonce((old(self).random_nonce + 1) as u32),
    {
        let variance = self.config.attack_variance;
        // the generator supports unsigned ranges only, so the signed delta
        // is recovered from a draw over [0, 2 * variance]
        let unsigned_variance = self.random_in_range(Range::new(0, variance * 2), t);
        let delta: i64 = unsigned_variance as i64 - variance as i64;
        let power: i64 = strength as i64 + delta;
        if power < 0 {
            0
        } else if power > u32::MAX as i64 {
            u32::MAX
        } else {
            power as u32
        }
    }
}

/// Saturating unsigned addition, as all health, streak and gold arithmetic
/// uses it.
pub open spec fn sat_add_u32(a: u32, b: u32) -> u32 {
    if a + b > u32::MAX {
        u32::MAX
    } else {
        (a + b) as u32
    }
}

/// Saturating unsigned subtraction: damage never drives a value below zero.
pub open spec fn sat_sub_u32(a: u32, b: u32) -> u32 {
    if a < b {
        0
    } else {
        (a - b) as u32
    }
}

/// Saturating unsigned multiplication over token balances.
pub open spec fn sat_mul_u128(a: u128, b: u128) -> u128 {
    if a * b > u128::MAX {
        u128::MAX
    } else {
        (a * b) as u128
    }
}

/// The value one draw yields: the entropy word mapped into the range.
pub open spec fn spec_draw(range: Range, t: u32) -> u32 {
    lerp_spec(range.start as int, range.end as int, t as int) as u32
}

/// Every draw over a well-formed range lands inside it.
pub proof fn lemma_draw_in_range(range: Range, t: u32)
    requires
        range.wf(),
    ensures
        range.spec_contains(spec_draw(range, t)),
{
    lemma_lerp_bounds(range.start as int, range.end as int, t as int);
}

/// The ledger instructions that minting one equipment token issues: the
/// mint itself, and a freeze when the token is minted equipped.
pub open spec fn spec_mint_nft_instructions(
    recipient: AccountId,
    token_id: TokenId,
    freeze: bool,
) -> Seq<LedgerInstruction> {
    if freeze {
        seq![
            LedgerInstruction::MintNft { recipient, token_id },
            LedgerInstruction::Freeze { token_id },
        ]
    } else {
        seq![LedgerInstruction::MintNft { recipient, token_id }]
    }
}

/// The ledger instructions that spending gold issues: the amount moves from
/// the caller to the game account and is burned there.
pub open spec fn spec_spend_gold_instructions(caller: AccountId, cost: TokenBalance) -> Seq<
    LedgerInstruction,
> {
    seq![
        LedgerInstruction::TransferGold { source: caller, amount: cost },
        LedgerInstruction::BurnGold { amount: cost },
    ]
}

/// Whether spending `cost` gold is allowed, and for which hero: the caller
/// must have a hero, the hero must not be in a battle, and the caller's
/// gold balance must cover the cost.
pub open spec fn spec_spend_gold_check(
    g: Game,
    caller: AccountId,
    cost: TokenBalance,
    gold_balance: TokenBalance,
) -> Result<Hero, Error> {
    match g.spec_hero(caller) {
        None => Err(Error::HeroNotFound),
        Some(hero) => if hero.battle is Some {
            Err(Error::HeroIsInBattle)
        } else if gold_balance < cost {
            Err(Error::NotEnoughGold)
        } else {
            Ok(hero)
        },
    }
}

impl Game {
    /// This game, with only the randomness nonce advanced.
    pub open spec fn with_nonce(self, nonce: u32) -> Game {
        Game { random_nonce: nonce, ..self }
    }

    /// Modify the configuration of the game. Only callable by the owner.
    ///
    /// The owner must keep the configuration well-formed: the drawing
    /// ranges it sets are not checked defensively.
    pub fn mutate_config(&mut self, caller: AccountId, mutation: ConfigMutation) -> (r: Result<
        (),
        Error,
    >)
        requires
            caller == old(self).owner ==> mutation.spec_apply(old(self).config).wf(),
        ensures
            caller != old(self).owner ==> r == Err::<(), Error>(Error::NoPermission) && *final(self)
                == *old(self),
            caller == old(self).owner ==> r == Ok::<(), Error>(()) && *final(self) == (Game {
                config: mutation.spec_apply(old(self).config),
                ..*old(self)
            }),
            caller == old(self).owner && old(self).wf() ==> final(self).wf(),
    {
        // make sure the owner is the caller
        if caller != self.owner {
            return Err(Error::NoPermission);
        }

        // apply the mutation
        mutation.apply_to(&mut self.config);

        Ok(())
    }

    /// Allocate the id for a fresh equipment token.
    fn increment_next_token_id(&mut self) -> (token_id: TokenId)
        requires
            old(self).next_token_id < u128::MAX,
        ensures
            token_id == old(self).next_token_id,
            *final(self) == (Game {
                next_token_id: (old(self).next_token_id + 1) as u128,
                ..*old(self)
            }),
    {
        let token_id = self.next_token_id;
        self.next_token_id = self.next_token_id + 1;
        token_id
    }

    /// Allocate an equipment token id and instruct the ledger to mint it,
    /// frozen when it is minted equipped.
    fn mint_nft(
        &mut self,
        recipient: AccountId,
        freeze: bool,
        instructions: &mut Vec<LedgerInstruction>,
    ) -> (token_id: TokenId)
        requires
            old(self).next_token_id < u128::MAX,
        ensures
            token_id == old(self).next_token_id,
            *final(self) == (Game {
                next_token_id: (old(self).next_token_id + 1) as u128,
                ..*old(self)
            }),
            final(instructions)@ == old(instructions)@ + spec_mint_nft_instructions(
                recipient,
                token_id,
                freeze,
            ),
    {
        let token_id = self.increment_next_token_id();
        instructions.push(LedgerInstruction::MintNft { recipient, token_id });
        if freeze {
            instructions.push(LedgerInstruction::Freeze { token_id });
        }
        proof {
            assert(final(instructions)@ =~= old(instructions)@ + spec_mint_nft_instructions(
                recipient,
                token_id,
                freeze,
            ));
        }
        token_id
    }

    /// Instruct the ledger to mint gold to `recipient`.
    fn mint_gold(
        &self,
        recipient: AccountId,
        amount: TokenBalance,
        instructions: &mut Vec<LedgerInstruction>,
    )
        ensures
            final(instructions)@ == old(instructions)@ + seq![
                LedgerInstruction::MintGold { recipient, amount },
            ],
    {
        instructions.push(LedgerInstruction::MintGold { recipient, amount });
        proof {
            assert(final(instructions)@ =~= old(instructions)@ + seq![
                LedgerInstruction::MintGold { recipient, amount },
            ]);
        }
    }

    /// Roll a strength for an equipment token, if a range is given, and
    /// instruct the ledger to store the token's metadata attribute.
    ///
    /// `t` is the entropy word of the roll; it is consumed only when a
    /// range is given.
    fn add_equipment_attribute(
        &mut self,
        token_id: TokenId,
        token_type: TokenType,
        value_range: Option<Range>,
        t: u32,
        instructions: &mut Vec<LedgerInstruction>,
    ) -> (strength: u32)
        requires
            value_range is Some ==> value_range->0.wf() && old(self).random_nonce < u32::MAX,
        ensures
            strength == if value_range is Some {
                spec_draw(value_range->0, t)
            } else {
                0u32
            },
            value_range is Some ==> *final(self) == old(self).with_nonce(
                (old(self).random_nonce + 1) as u32,
            ),
            value_range is None ==> *final(self) == *old(self),
            final(instructions)@ == old(instructions)@ + seq![
                LedgerInstruction::SetAttribute {
                    token_id,
                    metadata: TokenMetadata { token_type, strength },
                },
            ],
    {
        let strength = match value_range {
            Some(range) => self.random_in_range(range, t),
            None => 0,
        };
        instructions.push(
            LedgerInstruction::SetAttribute {
                token_id,
                metadata: TokenMetadata { token_type, strength },
            },
        );
        proof {
            assert(final(instructions)@ =~= old(instructions)@ + seq![
                LedgerInstruction::SetAttribute {
                    token_id,
                    metadata: TokenMetadata { token_type, strength },
                },
            ]);
        }
        strength
    }

    /// Check that the caller may spend `cost` gold outside of battle, and
    /// instruct the ledger to collect it.
    ///
    /// `gold_balance` is the caller's gold balance as the host read it from
    /// the ledger. On success the caller's hero is handed back, unmodified,
    /// for the operation to mutate further.
    fn spend_gold(
        &mut self,
        caller: AccountId,
        cost: TokenBalance,
        gold_balance: TokenBalance,
        instructions: &mut Vec<LedgerInstruction>,
    ) -> (r: Result<Hero, Error>)
        ensures
            r == spec_spend_gold_check(*old(self), caller, cost, gold_balance),
            *final(self) == *old(self),
            r is Ok ==> final(instructions)@ == old(instructions)@ + spec_spend_gold_instructions(
                caller,
                cost,
            ),
            r is Err ==> final(instructions)@ == old(instructions)@,
    {
        // make sure hero is not in a battle
        let hero = match self.get_hero(caller) {
            Some(h) => h,
            None => {
                return Err(Error::HeroNotFound);
            },
        };
        if hero.battle.is_some() {
            return Err(Error::HeroIsInBattle);
        }

        // check the balance the host read for the caller
        if gold_balance < cost {
            return Err(Error::NotEnoughGold);
        }

        // transfer gold to the game account, then burn the units there
        instructions.push(LedgerInstruction::TransferGold { source: caller, amount: cost });
        instructions.push(LedgerInstruction::BurnGold { amount: cost });
        proof {
            assert(final(instructions)@ =~= old(instructions)@ + spec_spend_gold_instructions(
                caller,
                cost,
            ));
        }

        Ok(hero)
    }

    /// Create a hero for the caller.
    ///
    /// A starting weapon is minted to the caller, frozen as equipped, and
    /// its strength is rolled from the configured starting range using
    /// `entropy[0]`. An existing hero for the caller is replaced.
    pub fn create_hero(&mut self, caller: AccountId, entropy: &Vec<u32>) -> (r: (Hero, Effects))
        requires
            old(self).wf(),
            entropy@.len() >= 1,
            old(self).next_token_id < u128::MAX,
            old(self).random_nonce < u32::MAX,
        ensures
            ({
                let weapon_id = old(self).next_token_id;
                let strength = spec_draw(
                    old(self).config.starting_weapon_strength_range,
                    entropy@[0],
                );
                let hero = Hero {
                    health: old(self).config.hero_max_health,
                    weapon_id,
                    hat_id: None,
                    potion_count: old(self).config.hero_initial_potion_count,
                    battle: None,
                    highest_consecutive_victory_count: 0,
                    consecutive_victory_count: 0,
                };
                &&& r.0 == hero
                &&& final(self).heroes@ == old(self).heroes@.insert(caller, hero)
                &&& *final(self) == (Game {
                    next_token_id: (old(self).next_token_id + 1) as u128,
                    random_nonce: (old(self).random_nonce + 1) as u32,
                    heroes: final(self).heroes,
                    ..*old(self)
                })
                &&& r.1.instructions@ == spec_mint_nft_instructions(caller, weapon_id, true) + seq![
                    LedgerInstruction::SetAttribute {
                        token_id: weapon_id,
                        metadata: TokenMetadata { token_type: TokenType::Weapon, strength },
                    },
                ]
                &&& r.1.events@ == seq![
                    GameEvent::HeroCreated(
                        HeroCreated { hero_id: caller, weapon_id, weapon_strength: strength },
                    ),
                ]
                &&& final(self).wf()
            }),
    {
        let mut effects = Effects::none();

        // mint the weapon token
        let weapon_id = self.mint_nft(caller, true, &mut effects.instructions);

        // add attribute to equipment tokens
        let weapon_strength = self.add_equipment_attribute(
            weapon_id,
            TokenType::Weapon,
            Some(self.config.starting_weapon_strength_range),
            entropy[0],
            &mut effects.instructions,
        );

        // create hero with the token we just minted
        let hero = Hero::new(
            self.config.hero_max_health,
            weapon_id,
            self.config.hero_initial_potion_count,
        );
        self.heroes.insert(caller, hero);

        // emit the event
        effects.events.push(
            GameEvent::HeroCreated(
                HeroCreated { hero_id: caller, weapon_id, weapon_strength },
            ),
        );
        proof {
            assert(final(self).heroes@ =~= old(self).heroes@.insert(caller, hero));
        }
        (hero, effects)
    }
}

/// The hero and the token to thaw after equipping `token_id` with the given
/// metadata: a weapon replaces the equipped weapon, which is always thawed;
/// a hat replaces the equipped hat, if there was one.
pub open spec fn spec_equip_hero(hero: Hero, token_id: TokenId, metadata: TokenMetadata) -> (
    Hero,
    Option<TokenId>,
) {
    match metadata.token_type {
        TokenType::Weapon => (Hero { weapon_id: token_id, ..hero }, Some(hero.weapon_id)),
        TokenType::Hat => (Hero { hat_id: Some(token_id), ..hero }, hero.hat_id),
    }
}

impl Game {
    /// Start a battle with a randomly generated enemy.
    ///
    /// The enemy wears a hat with the configured percentage chance, decided
    /// by `entropy[0]`; a hat is minted to the game's own account. The
    /// enemy's health and strength are drawn from their configured ranges
    /// using `entropy[1]` and `entropy[2]`. Any battle the hero was already
    /// in is replaced.
    pub fn start_battle(&mut self, caller: AccountId, entropy: &Vec<u32>) -> (r: Result<
        Effects,
        Error,
    >)
        requires
            old(self).wf(),
            entropy@.len() >= 3,
            old(self).next_token_id < u128::MAX,
            old(self).random_nonce + 3 <= u32::MAX,
        ensures
            old(self).spec_hero(caller) is None ==> r == Err::<Effects, Error>(Error::HeroNotFound)
                && *final(self) == *old(self),
            old(self).spec_hero(caller) is Some ==> ({
                let wearing_hat = chance_spec(old(self).config.enemy_wearing_hat_chance, entropy@[0]);
                let hat_id = if wearing_hat {
                    Some(old(self).next_token_id)
                } else {
                    None
                };
                let enemy = Enemy {
                    hat_id,
                    health: spec_draw(old(self).config.enemy_health_range, entropy@[1]),
                    strength: spec_draw(old(self).config.enemy_strength_range, entropy@[2]),
                };
                let hero = Hero {
                    battle: Some(Battle { round_number: 0, enemy }),
                    ..old(self).spec_hero(caller)->0
                };
                &&& r is Ok
                &&& final(self).heroes@ == old(self).heroes@.insert(caller, hero)
                &&& *final(self) == (Game {
                    next_token_id: if wearing_hat {
                        (old(self).next_token_id + 1) as u128
                    } else {
                        old(self).next_token_id
                    },
                    random_nonce: (old(self).random_nonce + 3) as u32,
                    heroes: final(self).heroes,
                    ..*old(self)
                })
                &&& r->Ok_0.instructions@ == if wearing_hat {
                    spec_mint_nft_instructions(old(self).account_id, hat_id->0, false) + seq![
                        LedgerInstruction::SetAttribute {
                            token_id: hat_id->0,
                            metadata: TokenMetadata { token_type: TokenType::Hat, strength: 0 },
                        },
                    ]
                } else {
                    Seq::<LedgerInstruction>::empty()
                }
                &&& r->Ok_0.events@ == seq![
                    GameEvent::BattleStarted(BattleStarted { hero_id: caller, enemy }),
                ]
                &&& final(self).wf()
            }),
    {
        let mut effects = Effects::none();
        let mut hero = match self.get_hero(caller) {
            Some(h) => h,
            None => {
                return Err(Error::HeroNotFound);
            },
        };

        // possibly generate a hat for the enemy
        let hat_id = {
            if self.random_chance(self.config.enemy_wearing_hat_chance, entropy[0]) {
                // the hat is owned by the game account
                let hat_id = self.mint_nft(self.account_id, false, &mut effects.instructions);
                self.add_equipment_attribute(
                    hat_id,
                    TokenType::Hat,
                    None,
                    0,
                    &mut effects.instructions,
                );
                Some(hat_id)
            } else {
                None
            }
        };

        // create the enemy
        let enemy = Enemy {
            hat_id,
            health: self.random_in_range(self.config.enemy_health_range, entropy[1]),
            strength: self.random_in_range(self.config.enemy_strength_range, entropy[2]),
        };

        // update the data
        hero.battle = Some(Battle::new(enemy));
        self.heroes.insert(caller, hero);

        // emit the event
        effects.events.push(GameEvent::BattleStarted(BattleStarted { hero_id: caller, enemy }));

        proof {
            assert(final(self).heroes@ =~= old(self).heroes@.insert(caller, hero));
        }
        Ok(effects)
    }

    /// Equip `token_id` for the caller.
    ///
    /// `attribute` is the token's attribute bytes as the host read them
    /// from the ledger; a token without a decodable equipment attribute is
    /// rejected before any state changes. The replaced equipment is thawed
    /// and the new token is frozen.
    pub fn equip(&mut self, caller: AccountId, token_id: TokenId, attribute: &Option<Vec<u8>>) -> (r:
        Result<Effects, Error>)
        requires
            old(self).wf(),
        ensures
            old(self).spec_hero(caller) is None ==> r == Err::<Effects, Error>(Error::HeroNotFound)
                && *final(self) == *old(self),
            old(self).spec_hero(caller) is Some && spec_weapon_metadata(
                attribute_view(*attribute),
            ) is Err ==> r == Err::<Effects, Error>(
                spec_weapon_metadata(attribute_view(*attribute))->Err_0,
            ) && *final(self) == *old(self),
            old(self).spec_hero(caller) is Some && spec_weapon_metadata(
                attribute_view(*attribute),
            ) is Ok ==> ({
                let metadata = spec_weapon_metadata(attribute_view(*attribute))->Ok_0;
                let hero = spec_equip_hero(old(self).spec_hero(caller)->0, token_id, metadata).0;
                let thaw = spec_equip_hero(old(self).spec_hero(caller)->0, token_id, metadata).1;
                &&& r is Ok
                &&& final(self).heroes@ == old(self).heroes@.insert(caller, hero)
                &&& *final(self) == (Game { heroes: final(self).heroes, ..*old(self) })
                &&& r->Ok_0.instructions@ == (match thaw {
                    Some(thaw_token_id) => seq![LedgerInstruction::Thaw { token_id: thaw_token_id }],
                    None => Seq::<LedgerInstruction>::empty(),
                }) + seq![LedgerInstruction::Freeze { token_id }]
                &&& r->Ok_0.events@ == seq![
                    GameEvent::EquipmentChanged(
                        EquipmentChanged { hero_id: caller, token_id, equipped: true },
                    ),
                ]
                &&& final(self).wf()
            }),
    {
        let mut effects = Effects::none();
        let mut hero = match self.get_hero(caller) {
            Some(h) => h,
            None => {
                return Err(Error::HeroNotFound);
            },
        };

        // get the token metadata
        let metadata = match self.get_metadata(attribute) {
            Ok(Some(m)) => m,
            Ok(None) => {
                return Err(Error::InvalidEquipment);
            },
            Err(e) => {
                return Err(e);
            },
        };

        // set equipment and prepare thaw
        let thaw_token_id: Option<TokenId>;
        match metadata.token_type {
            TokenType::Weapon => {
                thaw_token_id = Some(hero.weapon_id);
                hero.weapon_id = token_id;
            },
            TokenType::Hat => {
                thaw_token_id = hero.hat_id;
                hero.hat_id = Some(token_id);
            },
        }

        // thaw previous token if needed
        if let Some(thaw_token_id) = thaw_token_id {
            effects.instructions.push(LedgerInstruction::Thaw { token_id: thaw_token_id });
        }

        // freeze new equipped token
        effects.instructions.push(LedgerInstruction::Freeze { token_id });

        // update the hero
        self.heroes.insert(caller, hero);

        // emit event
        effects.events.push(
            GameEvent::EquipmentChanged(
                EquipmentChanged { hero_id: caller, token_id, equipped: true },
            ),
        );

        proof {
            assert(final(self).heroes@ =~= old(self).heroes@.insert(caller, hero));
            assert(effects.instructions@ =~= (match thaw_token_id {
                Some(thaw_token_id) => seq![LedgerInstruction::Thaw { token_id: thaw_token_id }],
                None => Seq::<LedgerInstruction>::empty(),
            }) + seq![LedgerInstruction::Freeze { token_id }]);
        }
        Ok(effects)
    }

    /// Remove the caller's hat.
    ///
    /// Removing a hat leaves the token frozen, as equipping it froze it.
    pub fn unequip_hat(&mut self, caller: AccountId) -> (r: Result<Effects, Error>)
        requires
            old(self).wf(),
        ensures
            old(self).spec_hero(caller) is None ==> r == Err::<Effects, Error>(Error::HeroNotFound)
                && *final(self) == *old(self),
            old(self).spec_hero(caller) is Some ==> ({
                let hero = old(self).spec_hero(caller)->0;
                &&& r is Ok
                &&& r->Ok_0.instructions@ == Seq::<LedgerInstruction>::empty()
                &&& hero.hat_id is Some ==> ({
                    &&& final(self).heroes@ == old(self).heroes@.insert(
                        caller,
                        Hero { hat_id: None, ..hero },
                    )
                    &&& *final(self) == (Game { heroes: final(self).heroes, ..*old(self) })
                    &&& r->Ok_0.events@ == seq![
                        GameEvent::EquipmentChanged(
                            EquipmentChanged {
                                hero_id: caller,
                                token_id: hero.hat_id->0,
                                equipped: false,
                            },
                        ),
                    ]
                })
                &&& hero.hat_id is None ==> *final(self) == *old(self) && r->Ok_0.events@
                    == Seq::<GameEvent>::empty()
                &&& final(self).wf()
            }),
    {
        let mut effects = Effects::none();
        let mut hero = match self.get_hero(caller) {
            Some(h) => h,
            None => {
                return Err(Error::HeroNotFound);
            },
        };

        // remove the hat
        if let Some(hat_id) = hero.hat_id {
            hero.hat_id = None;
            self.heroes.insert(caller, hero);

            // emit event
            effects.events.push(
                GameEvent::EquipmentChanged(
                    EquipmentChanged { hero_id: caller, token_id: hat_id, equipped: false },
                ),
            );
            proof {
                assert(final(self).heroes@ =~= old(self).heroes@.insert(caller, hero));
            }
        }

        Ok(effects)
    }

    /// Recover the caller to full health. Can only be done outside of battle.
    ///
    /// `gold_balance` is the caller's gold balance as the host read it.
    pub fn rest(&mut self, caller: AccountId, gold_balance: TokenBalance) -> (r: Result<
        Effects,
        Error,
    >)
        requires
            old(self).wf(),
        ensures
            ({
                let check = spec_spend_gold_check(
                    *old(self),
                    caller,
                    old(self).config.rest_cost,
                    gold_balance,
                );
                &&& check is Err ==> r is Err && r->Err_0 == check->Err_0 && *final(self) == *old(
                    self,
                )
                &&& check is Ok ==> ({
                    let hero = Hero { health: old(self).config.hero_max_health, ..check->Ok_0 };
                    &&& r is Ok
                    &&& final(self).heroes@ == old(self).heroes@.insert(caller, hero)
                    &&& *final(self) == (Game { heroes: final(self).heroes, ..*old(self) })
                    &&& r->Ok_0.instructions@ == spec_spend_gold_instructions(
                        caller,
                        old(self).config.rest_cost,
                    )
                    &&& r->Ok_0.events@ == seq![GameEvent::Rested(Rested { hero_id: caller })]
                    &&& final(self).wf()
                })
            }),
    {
        let mut effects = Effects::none();
        let rest_cost = self.config.rest_cost;
        let mut hero = match self.spend_gold(caller, rest_cost, gold_balance, &mut effects.instructions) {
            Ok(h) => h,
            Err(e) => {
                return Err(e);
            },
        };

        // set health to max
        hero.health = self.config.hero_max_health;
        self.heroes.insert(caller, hero);

        // emit event
        effects.events.push(GameEvent::Rested(Rested { hero_id: caller }));

        proof {
            assert(final(self).heroes@ =~= old(self).heroes@.insert(caller, hero));
        }
        Ok(effects)
    }

    /// Purchase healing potions. Can only be done outside of battle.
    ///
    /// The cost is the configured potion cost times `quantity`, saturating;
    /// `gold_balance` is the caller's gold balance as the host read it.
    pub fn buy_potion(&mut self, caller: AccountId, quantity: u32, gold_balance: TokenBalance) -> (r:
        Result<Effects, Error>)
        requires
            old(self).wf(),
        ensures
            ({
                let cost = sat_mul_u128(old(self).config.potion_cost, quantity as u128);
                let check = spec_spend_gold_check(*old(self), caller, cost, gold_balance);
                &&& check is Err ==> r is Err && r->Err_0 == check->Err_0 && *final(self) == *old(
                    self,
                )
                &&& check is Ok ==> ({
                    let hero = Hero {
                        potion_count: sat_add_u32(check->Ok_0.potion_count, quantity),
                        ..check->Ok_0
                    };
                    &&& r is Ok
                    &&& final(self).heroes@ == old(self).heroes@.insert(caller, hero)
                    &&& *final(self) == (Game { heroes: final(self).heroes, ..*old(self) })
                    &&& r->Ok_0.instructions@ == spec_spend_gold_instructions(caller, cost)
                    &&& r->Ok_0.events@ == Seq::<GameEvent>::empty()
                    &&& final(self).wf()
                })
            }),
    {
        let mut effects = Effects::none();
        let cost = match self.config.potion_cost.checked_mul(quantity as u128) {
            Some(c) => c,
            None => u128::MAX,
        };
        let mut hero = match self.spend_gold(caller, cost, gold_balance, &mut effects.instructions) {
            Ok(h) => h,
            Err(e) => {
                return Err(e);
            },
        };

        // add the potions
        hero.potion_count = hero.potion_count.saturating_add(quantity);
        self.heroes.insert(caller, hero);

        proof {
            assert(final(self).heroes@ =~= old(self).heroes@.insert(caller, hero));
        }
        Ok(effects)
    }

    /// Buy a new weapon. Can only be done outside of battle.
    ///
    /// The weapon is minted to the caller, unfrozen and unequipped, with a
    /// strength rolled from the configured purchased range using
    /// `entropy[0]`. Returns the `TokenId` of the generated weapon.
    pub fn buy_weapon(
        &mut self,
        caller: AccountId,
        gold_balance: TokenBalance,
        entropy: &Vec<u32>,
    ) -> (r: Result<(TokenId, Effects), Error>)
        requires
            old(self).wf(),
            entropy@.len() >= 1,
            old(self).next_token_id < u128::MAX,
            old(self).random_nonce < u32::MAX,
        ensures
            ({
                let check = spec_spend_gold_check(
                    *old(self),
                    caller,
                    old(self).config.weapon_cost,
                    gold_balance,
                );
                &&& check is Err ==> r is Err && r->Err_0 == check->Err_0 && *final(self) == *old(
                    self,
                )
                &&& check is Ok ==> ({
                    let token_id = old(self).next_token_id;
                    let strength = spec_draw(
                        old(self).config.purchased_weapon_strength_range,
                        entropy@[0],
                    );
                    &&& r is Ok
                    &&& r->Ok_0.0 == token_id
                    &&& *final(self) == (Game {
                        next_token_id: (old(self).next_token_id + 1) as u128,
                        random_nonce: (old(self).random_nonce + 1) as u32,
                        ..*old(self)
                    })
                    &&& r->Ok_0.1.instructions@ == spec_spend_gold_instructions(
                        caller,
                        old(self).config.weapon_cost,
                    ) + spec_mint_nft_instructions(caller, token_id, false) + seq![
                        LedgerInstruction::SetAttribute {
                            token_id,
                            metadata: TokenMetadata { token_type: TokenType::Weapon, strength },
                        },
                    ]
                    &&& r->Ok_0.1.events@ == seq![
                        GameEvent::WeaponPurchased(
                            WeaponPurchased { hero_id: caller, token_id, strength },
                        ),
                    ]
                })
                &&& final(self).wf()
            }),
    {
        let mut effects = Effects::none();
        let weapon_cost = self.config.weapon_cost;
        match self.spend_gold(caller, weapon_cost, gold_balance, &mut effects.instructions) {
            Ok(_) => {},
            Err(e) => {
                return Err(e);
            },
        }

        // generate the weapon
        let token_id = self.mint_nft(caller, false, &mut effects.instructions);
        let strength = self.add_equipment_attribute(
            token_id,
            TokenType::Weapon,
            Some(self.config.purchased_weapon_strength_range),
            entropy[0],
            &mut effects.instructions,
        );
        effects.events.push(
            GameEvent::WeaponPurchased(WeaponPurchased { hero_id: caller, token_id, strength }),
        );

        Ok((token_id, effects))
    }
}

/// The battle is over exactly when either side is dead.
pub open spec fn spec_battle_over(hero: Hero, battle: Battle) -> bool {
    hero.spec_is_dead() || battle.enemy.spec_is_dead()
}

/// One hero action, starting at entropy index `i`.
///
/// An attack resolves the equipped weapon's metadata, spreads its strength
/// by the configured variance using one entropy word, and deals the result
/// to the enemy, saturating. A heal needs a potion and restores the hero to
/// full health. The result carries the next unused entropy index.
pub open spec fn spec_hero_action(
    config: Config,
    hero: Hero,
    battle: Battle,
    command: Command,
    attribute: Option<Seq<u8>>,
    entropy: Seq<u32>,
    i: int,
) -> Result<(Hero, Battle, int), Error> {
    match command {
        Command::Attack => match spec_weapon_metadata(attribute) {
            Err(e) => Err(e),
            Ok(metadata) => {
                let power = attack_power_spec(
                    metadata.strength,
                    config.attack_variance,
                    entropy[i],
                ) as u32;
                Ok(
                    (
                        hero,
                        Battle {
                            enemy: Enemy {
                                health: sat_sub_u32(battle.enemy.health, power),
                                ..battle.enemy
                            },
                            ..battle
                        },
                        i + 1,
                    ),
                )
            },
        },
        Command::Heal => if hero.potion_count == 0 {
            Err(Error::HeroHasNoPotions)
        } else {
            Ok(
                (
                    Hero {
                        health: config.hero_max_health,
                        potion_count: (hero.potion_count - 1) as u32,
                        ..hero
                    },
                    battle,
                    i,
                ),
            )
        },
    }
}

/// The enemy's action, starting at entropy index `i`: an attack with the
/// enemy's strength, spread by the configured variance using one entropy
/// word, dealt to the hero, saturating. Enemies never heal.
pub open spec fn spec_enemy_action(
    config: Config,
    hero: Hero,
    battle: Battle,
    entropy: Seq<u32>,
    i: int,
) -> (Hero, Battle, int) {
    let power = attack_power_spec(battle.enemy.strength, config.attack_variance, entropy[i]) as u32;
    (Hero { health: sat_sub_u32(hero.health, power), ..hero }, battle, i + 1)
}

/// Both actions of one round: entropy word 0 decides who goes first, the
/// first actor acts, and the second acts only if neither side is then dead.
pub open spec fn spec_round_actions(
    config: Config,
    hero: Hero,
    battle: Battle,
    command: Command,
    attribute: Option<Seq<u8>>,
    entropy: Seq<u32>,
) -> Result<(Hero, Battle, int), Error> {
    let hero_first = chance_spec(config.hero_goes_first_chance, entropy[0]);
    if hero_first {
        match spec_hero_action(config, hero, battle, command, attribute, entropy, 1) {
            Err(e) => Err(e),
            Ok((h1, b1, i1)) => if !spec_battle_over(h1, b1) {
                Ok(spec_enemy_action(config, h1, b1, entropy, i1))
            } else {
                Ok((h1, b1, i1))
            },
        }
    } else {
        let (h1, b1, i1) = spec_enemy_action(config, hero, battle, entropy, 1);
        if !spec_battle_over(h1, b1) {
            spec_hero_action(config, h1, b1, command, attribute, entropy, i1)
        } else {
            Ok((h1, b1, i1))
        }
    }
}

/// The hero after a victory: the streak grows by one, saturating, and the
/// highest streak on record is raised if the new streak exceeds it.
pub open spec fn spec_settle_victory(hero: Hero) -> Hero {
    let streak = sat_add_u32(hero.consecutive_victory_count, 1);
    Hero {
        consecutive_victory_count: streak,
        highest_consecutive_victory_count: if hero.highest_consecutive_victory_count < streak {
            streak
        } else {
            hero.highest_consecutive_victory_count
        },
        ..hero
    }
}

/// The hero after a defeat: health is reset to the configured maximum and
/// the streak is reset to zero. Applied after any victory settlement when
/// both sides die in the same round, so defeat wins the streak.
pub open spec fn spec_settle_defeat(config: Config, hero: Hero) -> Hero {
    Hero { health: config.hero_max_health, consecutive_victory_count: 0, ..hero }
}

impl Game {
    /// Perform the hero's chosen action for this round.
    fn hero_action(
        &mut self,
        hero: &mut Hero,
        battle: &mut Battle,
        command: Command,
        attribute: &Option<Vec<u8>>,
        entropy: &Vec<u32>,
        idx: &mut usize,
    ) -> (r: Result<(), Error>)
        requires
            old(self).config.wf(),
            old(self).random_nonce < u32::MAX,
            *old(idx) < usize::MAX,
            *old(idx) + 1 <= entropy@.len(),
        ensures
            ({
                let action = spec_hero_action(
                    old(self).config,
                    *old(hero),
                    *old(battle),
                    command,
                    attribute_view(*attribute),
                    entropy@,
                    *old(idx) as int,
                );
                match action {
                    Err(e) => r == Err::<(), Error>(e) && *final(self) == *old(self) && *final(hero)
                        == *old(hero) && *final(battle) == *old(battle) && *final(idx) == *old(idx),
                    Ok((h1, b1, i1)) => r is Ok && *final(hero) == h1 && *final(battle) == b1 && (
                    *final(idx) as int) == i1 && *final(self) == (if command is Attack {
                        old(self).with_nonce((old(self).random_nonce + 1) as u32)
                    } else {
                        *old(self)
                    }),
                }
            }),
    {
        match command {
            Command::Attack => {
                let metadata = match self.get_metadata(attribute) {
                    Ok(Some(m)) => m,
                    Ok(None) => {
                        return Err(Error::InvalidEquipment);
                    },
                    Err(e) => {
                        return Err(e);
                    },
                };
                let attack_power = self.calculate_attack_power(metadata.strength, entropy[*idx]);
                *idx = *idx + 1;
                battle.enemy.health = battle.enemy.health.saturating_sub(attack_power);
            },
            Command::Heal => {
                if hero.potion_count == 0 {
                    return Err(Error::HeroHasNoPotions);
                }
                hero.health = self.config.hero_max_health;
                hero.potion_count = hero.potion_count.saturating_sub(1);
            },
        }
        Ok(())
    }

    /// Perform the enemy's action for this round.
    fn enemy_action(
        &mut self,
        hero: &mut Hero,
        battle: &mut Battle,
        entropy: &Vec<u32>,
        idx: &mut usize,
    ) -> (r: Result<(), Error>)
        requires
            old(self).config.wf(),
            old(self).random_nonce < u32::MAX,
            *old(idx) < usize::MAX,
            *old(idx) + 1 <= entropy@.len(),
        ensures
            r is Ok,
            ({
                let action = spec_enemy_action(
                    old(self).config,
                    *old(hero),
                    *old(battle),
                    entropy@,
                    *old(idx) as int,
                );
                &&& *final(hero) == action.0
                &&& *final(battle) == action.1
                &&& (*final(idx) as int) == action.2
                &&& *final(self) == old(self).with_nonce((old(self).random_nonce + 1) as u32)
            }),
    {
        let attack_power = self.calculate_attack_power(battle.enemy.strength, entropy[*idx]);
        *idx = *idx + 1;
        hero.health = hero.health.saturating_sub(attack_power);
        Ok(())
    }

    /// Advance the battle to the next turn.
    ///
    /// `weapon_attribute` is the attribute bytes of the hero's equipped
    /// weapon as the host read them from the ledger; an attack validates
    /// them before any state changes. Up to four entropy words are
    /// consumed, in order: turn order, the attacker's power draw (or draws),
    /// and the gold reward of a victory. On a rejection the stored hero and
    /// battle are untouched; only the nonces of the draws already made stay
    /// consumed.
    pub fn advance_battle(
        &mut self,
        caller: AccountId,
        command: Command,
        weapon_attribute: &Option<Vec<u8>>,
        entropy: &Vec<u32>,
    ) -> (r: Result<Effects, Error>)
        requires
            old(self).wf(),
            entropy@.len() >= 4,
            old(self).random_nonce + 4 <= u32::MAX,
        ensures
            old(self).spec_hero(caller) is None ==> r == Err::<Effects, Error>(Error::HeroNotFound)
                && *final(self) == *old(self),
            old(self).spec_hero(caller) is Some && old(self).spec_hero(caller)->0.battle is None
                ==> r == Err::<Effects, Error>(Error::HeroNotInBattle) && *final(self) == *old(self),
            old(self).spec_hero(caller) is Some && old(self).spec_hero(caller)->0.battle is Some
                ==> ({
                let hero0 = old(self).spec_hero(caller)->0;
                let battle0 = hero0.battle->0;
                let hero_first = chance_spec(old(self).config.hero_goes_first_chance, entropy@[0]);
                let actions = spec_round_actions(
                    old(self).config,
                    hero0,
                    battle0,
                    command,
                    attribute_view(*weapon_attribute),
                    entropy@,
                );
                &&& actions is Err ==> r == Err::<Effects, Error>(actions->Err_0) && *final(self)
                    == old(self).with_nonce(
                    (old(self).random_nonce + if hero_first {
                        1int
                    } else {
                        2int
                    }) as u32,
                )
                &&& actions is Ok ==> ({
                    let h1 = actions->Ok_0.0;
                    let b1 = actions->Ok_0.1;
                    let i1 = actions->Ok_0.2;
                    let over = spec_battle_over(h1, b1);
                    let enemy_dead = b1.enemy.spec_is_dead();
                    let hero_dead = h1.spec_is_dead();
                    let new_round = sat_add_u32(battle0.round_number, 1);
                    let gold = spec_draw(old(self).config.enemy_gold_drop_range, entropy@[i1]);
                    let draws = i1 + if over && enemy_dead {
                        1int
                    } else {
                        0int
                    };
                    let settled = if enemy_dead {
                        spec_settle_victory(h1)
                    } else {
                        h1
                    };
                    let settled = if hero_dead {
                        spec_settle_defeat(old(self).config, settled)
                    } else {
                        settled
                    };
                    let hero2 = if over {
                        Hero { battle: None, ..settled }
                    } else {
                        Hero { battle: Some(Battle { round_number: new_round, ..b1 }), ..h1 }
                    };
                    &&& r is Ok
                    &&& final(self).heroes@ == old(self).heroes@.insert(caller, hero2)
                    &&& *final(self) == (Game {
                        random_nonce: (old(self).random_nonce + draws) as u32,
                        heroes: final(self).heroes,
                        ..*old(self)
                    })
                    &&& r->Ok_0.instructions@ == (if over && enemy_dead {
                        seq![
                            LedgerInstruction::MintGold {
                                recipient: caller,
                                amount: gold as TokenBalance,
                            },
                        ] + (match b1.enemy.hat_id {
                            Some(hat_id) => seq![
                                LedgerInstruction::TransferToken { recipient: caller, token_id: hat_id },
                            ],
                            None => Seq::<LedgerInstruction>::empty(),
                        })
                    } else {
                        Seq::<LedgerInstruction>::empty()
                    }) + (if over && hero_dead {
                        match b1.enemy.hat_id {
                            Some(hat_id) => seq![LedgerInstruction::BurnToken { token_id: hat_id }],
                            None => Seq::<LedgerInstruction>::empty(),
                        }
                    } else {
                        Seq::<LedgerInstruction>::empty()
                    })
                    &&& r->Ok_0.events@ == seq![
                        GameEvent::BattleAdvanced(
                            BattleAdvanced {
                                hero_id: caller,
                                round_number: battle0.round_number,
                                hero_damage_received: sat_sub_u32(hero0.health, h1.health),
                                enemy_damage_received: sat_sub_u32(
                                    battle0.enemy.health,
                                    b1.enemy.health,
                                ),
                            },
                        ),
                    ] + (if over {
                        seq![
                            GameEvent::BattleEnded(
                                BattleEnded {
                                    hero_id: caller,
                                    hero_wins: !hero_dead,
                                    round_count: new_round,
                                },
                            ),
                        ]
                    } else {
                        Seq::<GameEvent>::empty()
                    })
                    &&& final(self).wf()
                })
            }),
    {
        let mut effects = Effects::none();

        // setup
        let mut hero = match self.get_hero(caller) {
            Some(h) => h,
            None => {
                return Err(Error::HeroNotFound);
            },
        };
        let mut battle = match hero.battle {
            Some(b) => b,
            None => {
                return Err(Error::HeroNotInBattle);
            },
        };
        let hero_initial_health = hero.health;
        let enemy_initial_health = battle.enemy.health;

        // perform actions
        let hero_goes_first = self.random_chance(self.config.hero_goes_first_chance, entropy[0]);
        let mut idx: usize = 1;
        if hero_goes_first {
            match self.hero_action(&mut hero, &mut battle, command, weapon_attribute, entropy, &mut idx) {
                Ok(_) => {},
                Err(e) => {
                    return Err(e);
                },
            }
            if !(hero.is_dead() || battle.enemy.is_dead()) {
                let _ = self.enemy_action(&mut hero, &mut battle, entropy, &mut idx);
            }
        } else {
            let _ = self.enemy_action(&mut hero, &mut battle, entropy, &mut idx);
            if !(hero.is_dead() || battle.enemy.is_dead()) {
                match self.hero_action(
                    &mut hero,
                    &mut battle,
                    command,
                    weapon_attribute,
                    entropy,
                    &mut idx,
                ) {
                    Ok(_) => {},
                    Err(e) => {
                        return Err(e);
                    },
                }
            }
        }

        // report the damage of this round, then close it out
        effects.events.push(
            GameEvent::BattleAdvanced(
                BattleAdvanced {
                    hero_id: caller,
                    round_number: battle.round_number,
                    hero_damage_received: hero_initial_health.saturating_sub(hero.health),
                    enemy_damage_received: enemy_initial_health.saturating_sub(battle.enemy.health),
                },
            ),
        );
        battle.round_number = battle.round_number.saturating_add(1);

        // process battle outcome
        if hero.is_dead() || battle.enemy.is_dead() {
            let hero_wins = !hero.is_dead();
            hero.battle = None;

            // process hero victory
            if battle.enemy.is_dead() {
                // update victory count
                hero.consecutive_victory_count = hero.consecutive_victory_count.saturating_add(1);
                if hero.highest_consecutive_victory_count < hero.consecutive_victory_count {
                    hero.highest_consecutive_victory_count = hero.consecutive_victory_count;
                }

                // give gold reward
                let gold_amount = self.random_in_range(
                    self.config.enemy_gold_drop_range,
                    entropy[idx],
                );
                self.mint_gold(caller, gold_amount as TokenBalance, &mut effects.instructions);

                // transfer the hat to the hero if it exists
                if let Some(hat_id) = battle.enemy.hat_id {
                    effects.instructions.push(
                        LedgerInstruction::TransferToken { recipient: caller, token_id: hat_id },
                    );
                }
            }

            // process hero loss
            if hero.is_dead() {
                // update hero stats
                hero.health = self.config.hero_max_health;
                hero.consecutive_victory_count = 0;

                // burn the enemy's hat if it won the battle with it
                if let Some(hat_id) = battle.enemy.hat_id {
                    effects.instructions.push(LedgerInstruction::BurnToken { token_id: hat_id });
                }
            }

            // emit event
            effects.events.push(
                GameEvent::BattleEnded(
                    BattleEnded { hero_id: caller, hero_wins, round_count: battle.round_number },
                ),
            );
        } else {
            hero.battle = Some(battle);
        }

        // update the data
        self.heroes.insert(caller, hero);

        proof {
            assert(final(self).heroes@ =~= old(self).heroes@.insert(caller, hero));
        }
        Ok(effects)
    }
}

/// Reading a hero is idempotent: two lookups of the same account on the
/// same game state return identical values, as `get_hero` neither mutates
/// the game nor depends on anything but its state.
pub proof fn lemma_get_hero_idempotent(
    g: Game,
    account_id: AccountId,
    r1: Option<Hero>,
    r2: Option<Hero>,
)
    requires
        r1 == g.spec_hero(account_id),
        r2 == g.spec_hero(account_id),
    ensures
        r1 == r2,
{
}

/// A victory grows the streak by exactly one, saturating, raises the
/// highest streak on record to at least its old value, touches nothing
/// else, and keeps the streak bookkeeping consistent.
pub proof fn lemma_victory_updates_streak(hero: Hero)
    requires
        hero.wf(),
    ensures
        ({
            let settled = spec_settle_victory(hero);
            &&& settled.consecutive_victory_count == sat_add_u32(
                hero.consecutive_victory_count,
                1,
            )
            &&& settled.highest_consecutive_victory_count
                >= hero.highest_consecutive_victory_count
            &&& settled.health == hero.health
            &&& settled.wf()
        }),
{
}

/// A defeat resets health to the configured maximum and the streak to zero,
/// even when a victory was settled in the same round: applying the defeat
/// settlement after the victory settlement leaves the streak at zero and
/// the health at the maximum.
pub proof fn lemma_defeat_resets(config: Config, hero: Hero)
    requires
        hero.wf(),
    ensures
        spec_settle_defeat(config, hero).health == config.hero_max_health,
        spec_settle_defeat(config, hero).consecutive_victory_count == 0,
        spec_settle_defeat(config, hero).wf(),
        spec_settle_defeat(config, spec_settle_victory(hero)).health == config.hero_max_health,
        spec_settle_defeat(config, spec_settle_victory(hero)).consecutive_victory_count == 0,
{
}

/// Decode the first four bytes of a beacon hash, little-endian, into the
/// entropy word of one draw.
pub fn entropy_word(hash: &Vec<u8>) -> (r: u32)
    requires
        hash@.len() >= 4,
    ensures
        r == spec_u32_from_le_bytes(hash@.subrange(0, 4)),
{
    let mut first: Vec<u8> = Vec::new();
    first.push(hash[0]);
    first.push(hash[1]);
    first.push(hash[2]);
    first.push(hash[3]);
    proof {
        assert(first@ =~= hash@.subrange(0, 4));
    }
    u32_from_le_bytes(first.as_slice())
}

} // verus!
