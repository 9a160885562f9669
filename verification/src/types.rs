//! Data model of the game: ranges, configuration, heroes, enemies, battles,
//! commands, token metadata and the error taxonomy.

use vstd::prelude::*;

verus! {

/// Identifier of a token on the external ledger.
pub type TokenId = u128;

/// Identifier of the token collection the game operates in.
pub type CollectionId = u128;

/// A fungible token amount on the external ledger.
pub type TokenBalance = u128;

/// Caller identity, as the entry-point layer hands it to the core.
pub type AccountId = u64;

/// An inclusive range of unsigned values.
///
/// The invariant `start <= end` is not enforced defensively: callers of the
/// drawing operations must guarantee it.
#[derive(Debug, Clone, Copy, PartialEq, Eq, Structural)]
pub struct Range {
    /// The start of the range
    pub start: u32,
    /// The end of the range
    pub end: u32,
}

impl Range {
    /// The range is well-formed: its bounds are ordered.
    pub open spec fn wf(self) -> bool {
        self.start <= self.end
    }

    /// What `contains` decides.
    pub open spec fn spec_contains(self, value: u32) -> bool {
        self.start <= value && value <= self.end
    }

    /// Create a new range
    pub fn new(start: u32, end: u32) -> (r: Range)
        ensures
            r == (Range { start, end }),
    {
        Range { start, end }
    }

    /// True if `value` is between `start` and `end`, inclusive
    pub fn contains(&self, value: u32) -> (r: bool)
        ensures
            r == self.spec_contains(value),
    {
        value >= self.start && value <= self.end
    }
}

impl From<(u32, u32)> for Range {
    /// Reads a pair as the two inclusive bounds of a range.
    fn from(values: (u32, u32)) -> (r: Range) {
        Range { start: values.0, end: values.1 }
    }
}

impl vstd::std_specs::convert::FromSpecImpl<(u32, u32)> for Range {
    open spec fn obeys_from_spec() -> bool {
        true
    }

    open spec fn from_spec(values: (u32, u32)) -> Range {
        Range { start: values.0, end: values.1 }
    }
}

/// Configuration values for the game
#[derive(Debug, Clone, Copy, PartialEq, Eq)]
pub struct Config {
    /// Max health of the hero
    pub hero_max_health: u32,
    /// Strength range of the weapon the hero starts with
    pub starting_weapon_strength_range: Range,
    /// Strength range of a weapon that is bought
    pub purchased_weapon_strength_range: Range,
    /// The number of potions a hero starts with
    pub hero_initial_potion_count: u32,
    /// Health range of enemies
    pub enemy_health_range: Range,
    /// Strength range of enemies
    pub enemy_strength_range: Range,
    /// Range of amount of gold enemies drop
    pub enemy_gold_drop_range: Range,
    /// An attack will randomly be plus or minus this number or less
    /// For example, if it's 2, all attacks will be strength plus or minus 2, 1, or 0
    pub attack_variance: u32,
    /// Percentage of chance enemy will be wearing a hat
    pub enemy_wearing_hat_chance: u32,
    /// Percentage of chance the hero will go first each round in battle
    pub hero_goes_first_chance: u32,
    /// Cost in gold of resting
    pub rest_cost: TokenBalance,
    /// Cost in gold of a potion
    pub potion_cost: TokenBalance,
    /// Cost in gold of a weapon
    pub weapon_cost: TokenBalance,
}

impl Config {
    /// The configuration is well-formed: every drawing range has ordered
    /// bounds and the attack variance leaves its doubled value representable.
    pub open spec fn wf(self) -> bool {
        &&& self.starting_weapon_strength_range.wf()
        &&& self.purchased_weapon_strength_range.wf()
        &&& self.enemy_health_range.wf()
        &&& self.enemy_strength_range.wf()
        &&& self.enemy_gold_drop_range.wf()
        &&& self.attack_variance <= u32::MAX / 2
    }

    /// The configuration used when none is supplied at construction.
    pub open spec fn spec_default() -> Config {
        Config {
            hero_max_health: 50,
            starting_weapon_strength_range: Range { start: 5, end: 10 },
            purchased_weapon_strength_range: Range { start: 6, end: 13 },
            hero_initial_potion_count: 2,
            enemy_health_range: Range { start: 30, end: 60 },
            enemy_strength_range: Range { start: 5, end: 15 },
            enemy_gold_drop_range: Range { start: 20, end: 50 },
            attack_variance: 2,
            enemy_wearing_hat_chance: 35,
            hero_goes_first_chance: 50,
            rest_cost: 15,
            potion_cost: 50,
            weapon_cost: 125,
        }
    }
}

impl Default for Config {
    /// The default game balance.
    fn default() -> (r: Config)
        ensures
            r == Config::spec_default(),
            r.wf(),
    {
        Config {
            hero_max_health: 50,
            starting_weapon_strength_range: Range { start: 5, end: 10 },
            purchased_weapon_strength_range: Range { start: 6, end: 13 },
            hero_initial_potion_count: 2,
            enemy_health_range: Range { start: 30, end: 60 },
            enemy_strength_range: Range { start: 5, end: 15 },
            enemy_gold_drop_range: Range { start: 20, end: 50 },
            attack_variance: 2,
            enemy_wearing_hat_chance: 35,
            hero_goes_first_chance: 50,
            rest_cost: 15,
            potion_cost: 50,
            weapon_cost: 125,
        }
    }
}

/// Can be used to update config values. See config docs for info on each field.
#[derive(Debug, Clone, Copy, PartialEq, Eq)]
pub struct ConfigMutation {
    /// New max health of the hero, if set
    pub hero_max_health: Option<u32>,
    /// New starting-weapon strength range, if set
    pub starting_weapon_strength_range: Option<Range>,
    /// New purchased-weapon strength range, if set
    pub purchased_weapon_strength_range: Option<Range>,
    /// New starting potion count, if set
    pub hero_initial_potion_count: Option<u32>,
    /// New enemy health range, if set
    pub enemy_health_range: Option<Range>,
    /// New enemy strength range, if set
    pub enemy_strength_range: Option<Range>,
    /// New enemy gold drop range, if set
    pub enemy_gold_drop_range: Option<Range>,
    /// New hat chance percentage, if set
    pub enemy_wearing_hat_chance: Option<u32>,
    /// New first-move chance percentage, if set
    pub hero_goes_first_chance: Option<u32>,
    /// New rest cost, if set
    pub rest_cost: Option<TokenBalance>,
    /// New potion cost, if set
    pub potion_cost: Option<TokenBalance>,
    /// New weapon cost, if set
    pub weapon_cost: Option<TokenBalance>,
}

impl ConfigMutation {
    /// The configuration that applying this mutation produces: each field
    /// that is set replaces the old value, every other field is kept.
    pub open spec fn spec_apply(self, config: Config) -> Config {
        Config {
            hero_max_health: if self.hero_max_health is Some {
                self.hero_max_health->0
            } else {
                config.hero_max_health
            },
            starting_weapon_strength_range: if self.starting_weapon_strength_range is Some {
                self.starting_weapon_strength_range->0
            } else {
                config.starting_weapon_strength_range
            },
            purchased_weapon_strength_range: if self.purchased_weapon_strength_range is Some {
                self.purchased_weapon_strength_range->0
            } else {
                config.purchased_weapon_strength_range
            },
            hero_initial_potion_count: if self.hero_initial_potion_count is Some {
                self.hero_initial_potion_count->0
            } else {
                config.hero_initial_potion_count
            },
            enemy_health_range: if self.enemy_health_range is Some {
                self.enemy_health_range->0
            } else {
                config.enemy_health_range
            },
            enemy_strength_range: if self.enemy_strength_range is Some {
                self.enemy_strength_range->0
            } else {
                config.enemy_strength_range
            },
            enemy_gold_drop_range: if self.enemy_gold_drop_range is Some {
                self.enemy_gold_drop_range->0
            } else {
                config.enemy_gold_drop_range
            },
            attack_variance: config.attack_variance,
            enemy_wearing_hat_chance: if self.enemy_wearing_hat_chance is Some {
                self.enemy_wearing_hat_chance->0
            } else {
                config.enemy_wearing_hat_chance
            },
            hero_goes_first_chance: if self.hero_goes_first_chance is Some {
                self.hero_goes_first_chance->0
            } else {
                config.hero_goes_first_chance
            },
            rest_cost: if self.rest_cost is Some {
                self.rest_cost->0
            } else {
                config.rest_cost
            },
            potion_cost: if self.potion_cost is Some {
                self.potion_cost->0
            } else {
                config.potion_cost
            },
            weapon_cost: if self.weapon_cost is Some {
                self.weapon_cost->0
            } else {
                config.weapon_cost
            },
        }
    }

    /// Applies the mutation to `config`
    pub fn apply_to(self, config: &mut Config)
        ensures
            *final(config) == self.spec_apply(*old(config)),
    {
        if let Some(hero_max_health) = self.hero_max_health {
            config.hero_max_health = hero_max_health;
        }
        if let Some(starting_weapon_strength_range) = self.starting_weapon_strength_range {
            config.starting_weapon_strength_range = starting_weapon_strength_range;
        }
        if let Some(hero_initial_potion_count) = self.hero_initial_potion_count {
            config.hero_initial_potion_count = hero_initial_potion_count;
        }
        if let Some(purchased_weapon_strength_range) = self.purchased_weapon_strength_range {
            config.purchased_weapon_strength_range = purchased_weapon_strength_range;
        }
        if let Some(enemy_health_range) = self.enemy_health_range {
            config.enemy_health_range = enemy_health_range;
        }
        if let Some(enemy_strength_range) = self.enemy_strength_range {
            config.enemy_strength_range = enemy_strength_range;
        }
        if let Some(enemy_gold_drop_range) = self.enemy_gold_drop_range {
            config.enemy_gold_drop_range = enemy_gold_drop_range;
        }
        if let Some(enemy_wearing_hat_chance) = self.enemy_wearing_hat_chance {
            config.enemy_wearing_hat_chance = enemy_wearing_hat_chance;
        }
        if let Some(hero_goes_first_chance) = self.hero_goes_first_chance {
            config.hero_goes_first_chance = hero_goes_first_chance;
        }
        if let Some(rest_cost) = self.rest_cost {
            config.rest_cost = rest_cost;
        }
        if let Some(potion_cost) = self.potion_cost {
            config.potion_cost = potion_cost;
        }
        if let Some(weapon_cost) = self.weapon_cost {
            config.weapon_cost = weapon_cost;
        }
    }
}

impl Default for ConfigMutation {
    /// A mutation that sets nothing.
    fn default() -> (r: ConfigMutation)
        ensures
            r == (ConfigMutation {
                hero_max_health: None,
                starting_weapon_strength_range: None,
                purchased_weapon_strength_range: None,
                hero_initial_potion_count: None,
                enemy_health_range: None,
                enemy_strength_range: None,
                enemy_gold_drop_range: None,
                enemy_wearing_hat_chance: None,
                hero_goes_first_chance: None,
                rest_cost: None,
                potion_cost: None,
                weapon_cost: None,
            }),
    {
        ConfigMutation {
            hero_max_health: None,
            starting_weapon_strength_range: None,
            purchased_weapon_strength_range: None,
            hero_initial_potion_count: None,
            enemy_health_range: None,
            enemy_strength_range: None,
            enemy_gold_drop_range: None,
            enemy_wearing_hat_chance: None,
            hero_goes_first_chance: None,
            rest_cost: None,
            potion_cost: None,
            weapon_cost: None,
        }
    }
}

/// Error types for the game
#[derive(Debug, Clone, Copy, PartialEq, Eq, Structural)]
pub enum Error {
    /// The caller does not have permission for this operation
    NoPermission,
    /// The equipment being equipped is invalid
    InvalidEquipment,
    /// The attribute could not be decoded
    AttributeDecodeFailed,
    /// A hero does not exist for the provided account id
    HeroNotFound,
    /// This operation is not allowed while in battle
    HeroIsInBattle,
    /// This operation is only allowed while in battle
    HeroNotInBattle,
    /// The hero does not have any potions
    HeroHasNoPotions,
    /// The provided account id does not have enough gold
    NotEnoughGold,
}

/// An action that can be taken in battle
#[derive(Debug, Clone, Copy, PartialEq, Eq, Structural)]
pub enum Command {
    /// Damage the enemy
    Attack,
    /// Recover health to maximum
    Heal,
}

/// A type that a token can be
#[derive(Debug, Clone, Copy, PartialEq, Eq, Structural)]
pub enum TokenType {
    /// The token is a weapon
    Weapon,
    /// The token is a hat
    Hat,
}

impl TokenType {
    /// The tag under which this kind of token is stored in attribute bytes.
    pub open spec fn spec_value(self) -> u8 {
        match self {
            TokenType::Weapon => 1,
            TokenType::Hat => 2,
        }
    }

    /// What `from_value` decides for each byte.
    pub open spec fn spec_from_value(value: u8) -> Option<TokenType> {
        if value == 1 {
            Some(TokenType::Weapon)
        } else if value == 2 {
            Some(TokenType::Hat)
        } else {
            None
        }
    }

    /// The stored tag of this kind of token.
    pub fn value(self) -> (r: u8)
        ensures
            r == self.spec_value(),
    {
        match self {
            TokenType::Weapon => 1,
            TokenType::Hat => 2,
        }
    }

    /// Create from a u8
    pub fn from_value(value: u8) -> (r: Option<TokenType>)
        ensures
            r == TokenType::spec_from_value(value),
    {
        if value == 1 {
            Some(TokenType::Weapon)
        } else if value == 2 {
            Some(TokenType::Hat)
        } else {
            None
        }
    }
}

/// Metadata stored for a token as an attribute
#[derive(Debug, Clone, Copy, PartialEq, Eq, Structural)]
pub struct TokenMetadata {
    /// The type of the token
    pub token_type: TokenType,
    /// The strength value
    pub strength: u32,
}

/// Info about a token id, as handed back to callers.
#[derive(Debug, Clone, Copy, PartialEq, Eq)]
pub struct TokenIdInfo {
    /// The type of the token
    pub token_type: Option<TokenType>,
    /// The id of the token
    pub id: TokenId,
}

/// An entity that can be fought
#[derive(Debug, Clone, Copy, PartialEq, Eq)]
pub struct Enemy {
    /// The token id of the hat the enemy is wearing
    pub hat_id: Option<TokenId>,
    /// Remaining health
    pub health: u32,
    /// Determines the power of a delivered attack
    pub strength: u32,
}

impl Enemy {
    /// What `is_dead` decides.
    pub open spec fn spec_is_dead(self) -> bool {
        self.health == 0
    }

    /// Returns true if the enemy has no health
    pub fn is_dead(&self) -> (r: bool)
        ensures
            r == self.spec_is_dead(),
    {
        self.health == 0
    }
}

/// One battle per hero
#[derive(Debug, Clone, Copy, PartialEq, Eq)]
pub struct Battle {
    /// The current round number of this battle
    pub round_number: u32,
    /// The enemy involved in this battle
    pub enemy: Enemy,
}

impl Battle {
    /// Create a new battle
    pub fn new(enemy: Enemy) -> (r: Battle)
        ensures
            r == (Battle { round_number: 0, enemy }),
    {
        Battle { round_number: 0, enemy }
    }
}

/// The entity that represents the player
#[derive(Debug, Clone, Copy, PartialEq, Eq)]
pub struct Hero {
    /// Current health
    pub health: u32,
    /// `TokenId` of the hero's equipped weapon
    pub weapon_id: TokenId,
    /// `TokenId` of the hero's equipped hat
    pub hat_id: Option<TokenId>,
    /// The number of potions the hero has
    pub potion_count: u32,
    /// The current battle the hero is engaged in
    pub battle: Option<Battle>,
    /// The highest number of battles won in a row achieved by this hero
    pub highest_consecutive_victory_count: u32,
    /// The number of battles won in a row, without defeat
    pub consecutive_victory_count: u32,
}

impl Hero {
    /// The win-streak bookkeeping is consistent: the current streak never
    /// exceeds the highest streak on record.
    pub open spec fn wf(self) -> bool {
        self.consecutive_victory_count <= self.highest_consecutive_victory_count
    }

    /// Create a new hero
    pub fn new(health: u32, weapon_id: TokenId, potion_count: u32) -> (r: Hero)
        ensures
            r == (Hero {
                health,
                weapon_id,
                hat_id: None,
                potion_count,
                battle: None,
                highest_consecutive_victory_count: 0,
                consecutive_victory_count: 0,
            }),
            r.wf(),
    {
        Hero {
            health,
            weapon_id,
            hat_id: None,
            potion_count,
            battle: None,
            highest_consecutive_victory_count: 0,
            consecutive_victory_count: 0,
        }
    }

    /// What `is_dead` decides.
    pub open spec fn spec_is_dead(self) -> bool {
        self.health == 0
    }

    /// Returns true if the hero has no health
    pub fn is_dead(&self) -> (r: bool)
        ensures
            r == self.spec_is_dead(),
    {
        self.health == 0
    }
}

/// The bit index at which the token type is stored inside a wrapped id.
pub const TOKEN_TYPE_INDEX: u32 = 124;

/// The bit-mask of the token type inside a wrapped id.
pub const TOKEN_TYPE_BIT_MASK: u128 = 0b1111u128 << 124;

/// The tag stored for an optional token type: its value, or zero for none.
pub open spec fn spec_token_type_tag(token_type: Option<TokenType>) -> u128 {
    match token_type {
        None => 0,
        Some(t) => t.spec_value() as u128,
    }
}

/// Wraps the `TokenId` so we can encode the `TokenType` in it
#[derive(Debug, Clone, Copy, PartialEq, Eq, Structural)]
pub struct WrappedTokenId(pub TokenId);

impl WrappedTokenId {
    /// The token type held in the tag bits.
    pub open spec fn spec_token_type(self) -> Option<TokenType> {
        TokenType::spec_from_value(((self.0 & TOKEN_TYPE_BIT_MASK) >> TOKEN_TYPE_INDEX) as u8)
    }

    /// The id with the tag bits cleared.
    pub open spec fn spec_id(self) -> TokenId {
        self.0 & !TOKEN_TYPE_BIT_MASK
    }

    /// Create a new instance
    pub fn new(id: TokenId, token_type: Option<TokenType>) -> (r: WrappedTokenId)
        ensures
            r.spec_token_type() == token_type,
            r.spec_id() == id & !TOKEN_TYPE_BIT_MASK,
    {
        let mut value = WrappedTokenId(id);
        value.set_token_type(token_type);
        value
    }

    /// Set the token type
    pub fn set_token_type(&mut self, token_type: Option<TokenType>)
        ensures
            final(self).0 == (old(self).0 & !TOKEN_TYPE_BIT_MASK) | (spec_token_type_tag(
                token_type,
            ) << TOKEN_TYPE_INDEX),
            final(self).spec_token_type() == token_type,
            final(self).spec_id() == old(self).spec_id(),
    {
        let token_type_value: u128 = match token_type {
            None => 0,
            Some(t) => t.value() as u128,
        };

        // clear bits
        self.0 = self.0 & !TOKEN_TYPE_BIT_MASK;

        // set mask
        self.0 = self.0 | (token_type_value << TOKEN_TYPE_INDEX);

        proof {
            let x = old(self).0;
            let v = token_type_value;
            assert((((x & !(0b1111u128 << 124)) | (v << 124)) & (0b1111u128 << 124)) >> 124 == v)
                by (bit_vector)
                requires
                    v < 16,
            ;
            assert(((x & !(0b1111u128 << 124)) | (v << 124)) & !(0b1111u128 << 124) == x & !(
            0b1111u128 << 124)) by (bit_vector)
                requires
                    v < 16,
            ;
        }
    }

    /// Get the token type
    pub fn token_type(&self) -> (r: Option<TokenType>)
        ensures
            r == self.spec_token_type(),
    {
        proof {
            let x = self.0;
            assert((x & (0b1111u128 << 124)) >> 124 < 16) by (bit_vector);
        }
        let value: u128 = (self.0 & TOKEN_TYPE_BIT_MASK) >> TOKEN_TYPE_INDEX;
        TokenType::from_value(value as u8)
    }

    /// The id without any encoding
    pub fn id(&self) -> (r: TokenId)
        ensures
            r == self.spec_id(),
    {
        self.0 & !TOKEN_TYPE_BIT_MASK
    }
}

} // verus!
