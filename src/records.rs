use vstd::prelude::*;
use crate::address::Address;
use crate::status::is_status_code;

verus! {

/// Longest campaign description accepted, in characters.
pub const MAX_DESCRIPTION_SIZE: usize = 200;

/// Global parameters and staking totals.
#[derive(Clone, Copy, Debug, PartialEq, Eq, Structural)]
pub struct Config {
    pub admin: Address,
    pub native_token_mint: Address,
    pub donation_fee: u64,
    pub staking_initialized: bool,
    pub active_stakers: u64,
    pub total_amount_staked: u64,
    pub round_voting_period_in_days: u8,
    pub minimum_required_vote_percentage: u8,
    pub donator_voting_rights: u8,
    pub staker_voting_rights: u8,
    pub staker_moderation_rights: u8,
    pub staking_pool: Address,
    pub bump: u8,
}

/// A fundraising effort whose target is split into sequential rounds.
///
/// `balance` is the total raised so far; withdrawals do not lower it.
#[derive(Clone, Debug)]
pub struct Campaign {
    pub fundstarter: Address,
    pub vault: Address,
    pub description: String,
    pub target: u64,
    pub cid: String,
    pub balance: u64,
    pub token_mint: Address,
    /// Stored code of a `CampaignStatus`.
    pub status: u8,
    pub can_start_next_round: bool,
    pub total_rounds: u8,
    /// The current round, counted from 1.
    pub active_round: u8,
    pub active_round_address: Address,
    /// Moderation weight that found the campaign valid.
    pub is_valid_votes: u8,
    /// Moderation weight that found the campaign invalid.
    pub not_valid_votes: u8,
    /// How many moderators have voted.
    pub moderator_votes: u64,
    pub is_valid_campaign: bool,
    pub bump: u8,
}

impl Campaign {
    /// The campaign never holds more than its target, its status decodes, and
    /// its current round counts from 1 and does not pass the last one.
    pub open spec fn wf(self) -> bool {
        &&& self.balance <= self.target
        &&& is_status_code(self.status)
        &&& 1 <= self.active_round <= self.total_rounds
    }
}

/// One funding round of a campaign.
#[derive(Clone, Copy, Debug, PartialEq, Eq, Structural)]
pub struct Round {
    /// Key of the round's vote record; the zero key while there is none.
    pub round_votes: Address,
    pub round: u8,
    pub target: u64,
    pub balance: u64,
    /// How many donors gave to this round.
    pub donators: u64,
    /// Stored code of a `RoundStatus`.
    pub status: u8,
}

impl Round {
    /// The round's status decodes and its number counts from 1.
    pub open spec fn wf(self) -> bool {
        &&& is_status_code(self.status)
        &&& 1 <= self.round
    }
}

/// The continuation vote of one round.
#[derive(Clone, Copy, Debug, PartialEq, Eq, Structural)]
pub struct RoundVote {
    /// Weight of the votes to continue.
    pub continue_campaign: u8,
    /// Weight of the votes to terminate.
    pub terminate_campaign: u8,
    pub donators_voted: u64,
    pub stakers_voted: u64,
    /// Unix time at which voting opened, in seconds.
    pub start_time: i64,
    pub voting_ended: bool,
}

/// One donor's donation to one round.
#[derive(Clone, Copy, Debug, PartialEq, Eq, Structural)]
pub struct Donator {
    pub amount: u64,
    pub round: u8,
    pub bump: u8,
}

/// One staker's deposit in the staking pool.
#[derive(Clone, Copy, Debug, PartialEq, Eq, Structural)]
pub struct StakeAccount {
    pub stake_time: i64,
    pub deposit: u64,
    /// Staking reward; no reward is ever computed, so it stays zero.
    pub reward: u64,
}

/// One participant's ballot in one round's continuation vote.
#[derive(Clone, Copy, Debug, PartialEq, Eq, Structural)]
pub struct NextRoundVoter {
    pub voting_power: u8,
    pub has_voted: bool,
    /// Stored code of a `VoterType`.
    pub voter_type: u8,
    pub bump: u8,
}

/// One staker's ballot in a campaign's moderation.
#[derive(Clone, Copy, Debug, PartialEq, Eq, Structural)]
pub struct Moderator {
    pub voting_power: u8,
    pub has_voted: bool,
    /// Stored code of a `ModeratorType`.
    pub moderator_type: u8,
}

/// A transfer of tokens that an operation asks the host to make, within the
/// same atomic unit as the operation's changes to the records.
#[derive(Clone, Copy, Debug, PartialEq, Eq, Structural)]
pub struct TokenTransfer {
    pub from: Address,
    pub to: Address,
    pub authority: Address,
    pub amount: u64,
}

/// The closing of a token account that an operation asks the host to make.
#[derive(Clone, Copy, Debug, PartialEq, Eq, Structural)]
pub struct CloseAccount {
    pub account: Address,
    pub destination: Address,
    pub authority: Address,
}

} // verus!
