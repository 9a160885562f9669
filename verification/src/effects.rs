//! What the core hands back to its host for execution: instructions for the
//! external token ledger, and events for the notification collaborator.
//!
//! The core never performs ledger work itself; every mint, transfer, burn,
//! freeze, thaw and attribute write leaves an operation as an explicit
//! instruction, in the order in which the host must execute it. Events are
//! purely observational and never read back.

use crate::types::{AccountId, Enemy, TokenBalance, TokenId, TokenMetadata};
use vstd::prelude::*;

verus! {

/// A hero was created
#[derive(Debug, Clone, Copy, PartialEq, Eq)]
pub struct HeroCreated {
    /// The `AccountId` of the hero
    pub hero_id: AccountId,
    /// The `TokenId` of the weapon
    pub weapon_id: TokenId,
    /// The strength of the weapon
    pub weapon_strength: u32,
}

/// A battle was started
#[derive(Debug, Clone, Copy, PartialEq, Eq)]
pub struct BattleStarted {
    /// The `AccountId` of the hero
    pub hero_id: AccountId,
    /// The enemy generated for this battle
    pub enemy: Enemy,
}

/// The battle was advanced by a round
#[derive(Debug, Clone, Copy, PartialEq, Eq)]
pub struct BattleAdvanced {
    /// The `AccountId` of the hero
    pub hero_id: AccountId,
    /// The round number of the battle
    pub round_number: u32,
    /// The damage dealt to the hero
    pub hero_damage_received: u32,
    /// The damage dealt to the enemy
    pub enemy_damage_received: u32,
}

/// A battle ended
#[derive(Debug, Clone, Copy, PartialEq, Eq)]
pub struct BattleEnded {
    /// The `AccountId` of the hero
    pub hero_id: AccountId,
    /// True if the hero won the battle
    pub hero_wins: bool,
    /// The total number of rounds the battle took
    pub round_count: u32,
}

/// A weapon was purchased
#[derive(Debug, Clone, Copy, PartialEq, Eq)]
pub struct WeaponPurchased {
    /// The `AccountId` of the hero
    pub hero_id: AccountId,
    /// The `TokenId` of the weapon purchased
    pub token_id: TokenId,
    /// The strength of the weapon
    pub strength: u32,
}

/// A hero rested
#[derive(Debug, Clone, Copy, PartialEq, Eq)]
pub struct Rested {
    /// The `AccountId` of the hero
    pub hero_id: AccountId,
}

/// Equipment was changed for a hero
#[derive(Debug, Clone, Copy, PartialEq, Eq)]
pub struct EquipmentChanged {
    /// The `AccountId` of the hero
    pub hero_id: AccountId,
    /// The `TokenId` of the equipment
    pub token_id: TokenId,
    /// True if it was equipped, false if it was unequipped
    pub equipped: bool,
}

/// One operation the host must execute against the external token ledger.
#[derive(Debug, Clone, Copy, PartialEq, Eq)]
pub enum LedgerInstruction {
    /// Create a single-mint equipment token owned by `recipient`.
    MintNft {
        /// The account that receives the token
        recipient: AccountId,
        /// The id allocated for the token
        token_id: TokenId,
    },
    /// Mint `amount` units of gold to `recipient`.
    MintGold {
        /// The account that receives the gold
        recipient: AccountId,
        /// The amount of gold minted
        amount: TokenBalance,
    },
    /// Store the encoded `metadata` under the equipment attribute key of
    /// `token_id`.
    SetAttribute {
        /// The token the attribute is stored on
        token_id: TokenId,
        /// The metadata to encode and store
        metadata: TokenMetadata,
    },
    /// Transfer one unit of `token_id` from the game account to `recipient`.
    TransferToken {
        /// The account that receives the token
        recipient: AccountId,
        /// The token transferred
        token_id: TokenId,
    },
    /// Transfer `amount` of gold from `source` to the game account.
    TransferGold {
        /// The account the gold is taken from
        source: AccountId,
        /// The amount of gold transferred
        amount: TokenBalance,
    },
    /// Burn one unit of `token_id` held by the game account, removing its
    /// storage.
    BurnToken {
        /// The token burned
        token_id: TokenId,
    },
    /// Burn `amount` of gold held by the game account.
    BurnGold {
        /// The amount of gold burned
        amount: TokenBalance,
    },
    /// Freeze `token_id` so it cannot be moved while equipped.
    Freeze {
        /// The token frozen
        token_id: TokenId,
    },
    /// Thaw `token_id` once it is no longer equipped.
    Thaw {
        /// The token thawed
        token_id: TokenId,
    },
}

/// One event for the notification collaborator.
#[derive(Debug, Clone, Copy, PartialEq, Eq)]
pub enum GameEvent {
    /// A hero was created
    HeroCreated(HeroCreated),
    /// A battle was started
    BattleStarted(BattleStarted),
    /// The battle was advanced by a round
    BattleAdvanced(BattleAdvanced),
    /// A battle ended
    BattleEnded(BattleEnded),
    /// A weapon was purchased
    WeaponPurchased(WeaponPurchased),
    /// A hero rested
    Rested(Rested),
    /// Equipment was changed
    EquipmentChanged(EquipmentChanged),
}

/// Everything one call asks of the host: ledger instructions to execute in
/// order, and events to emit.
#[derive(Debug, PartialEq, Eq)]
pub struct Effects {
    /// Ledger operations, in execution order
    pub instructions: Vec<LedgerInstruction>,
    /// Events, in emission order
    pub events: Vec<GameEvent>,
}

impl Effects {
    /// Effects that ask nothing of the host.
    pub fn none() -> (r: Effects)
        ensures
            r.instructions@ =~= Seq::<LedgerInstruction>::empty(),
            r.events@ =~= Seq::<GameEvent>::empty(),
    {
        Effects { instructions: Vec::new(), events: Vec::new() }
    }
}

} // verus!
