//! Milestone-based crowdfunding escrow with stake-weighted governance.

mod address;
mod error;
mod status;
mod power;
mod records;
mod campaign;
mod round;
mod voting;
mod staking;
mod moderation;
mod laws;

pub use address::Address;
pub use error::{ErrorCode, ErrorKind};
pub use status::{
    is_status_code, CampaignStatus, ModeratorType, RoundStatus, VoterType, CAMPAIGN_ACTIVE, CAMPAIGN_ENDED,
    CAMPAIGN_TARGET_MET, MODERATOR_STAKER, ROUND_DONATIONS_OPEN, ROUND_ENDED, ROUND_TARGET_MET,
    VOTER_DONATOR, VOTER_STAKER,
};

pub use power::{proportional_power, voting_power, voting_power_result, MAX_VOTING_POWER};
pub use records::{
    CloseAccount, Campaign, Config, Donator, Moderator, NextRoundVoter, Round, RoundVote,
    StakeAccount, TokenTransfer, MAX_DESCRIPTION_SIZE,
};

pub use campaign::{
    close_vault_if_empty, first_round_target, opened_campaign, opened_round, start_campaign,
    start_campaign_error, status_after_withdraw, withdraw, withdraw_accounts_linked, withdraw_error,
    StartCampaign, Withdraw,
};

pub use round::{
    campaign_after_donation, donate, donate_accounts_linked, donated, donate_error,
    next_round_target, opens_last_round, round_after_donation, start_next_round,
    start_next_round_error, Donate, StartNextRound,
};

pub use voting::{
    ballot_counted, ballot_overflows, continuation_vetoed, init_donator_voting,
    init_donator_voting_error, init_staker_voting, init_staker_voting_error, initialize_voting,
    initialize_voting_error, maximum_possible_voters, quorum_minimum, tally_error,
    tally_overflows, tally_votes, vote, vote_accounts_linked, vote_error, voting_period_elapsed,
    voting_period_seconds, DonatorVotingInit, InitializeVoting, StakerVotingInit, TallyVotes,
    VoteNextRound, DAY_IN_SECONDS, QUORUM_PERCENT,
};

pub use staking::{
    initial_config, initialize, initialize_staking, initialize_staking_error, pool_totals_overflow,
    pool_totals_raised, stake, stake_accounts_linked, stake_error, unstake,
    unstake_accounts_linked, unstake_error, Initialize, InitializeStaking, Stake, Unstake,
};

pub use moderation::{
    campaign_after_moderation, init_staker_moderation, init_staker_moderation_error, moderate,
    moderate_error, moderation_finds_valid, moderation_overflows, Moderate, StakerModerationInit,
};

pub use laws::{
    lemma_balance_is_sum_of_donations, lemma_existing_donation_refused, lemma_invalid_campaign_never_withdraws,
    lemma_last_round_takes_remainder, lemma_moderation_can_restore_validity,
    lemma_second_donation_refused, lemma_tally_waits_out_period,
    lemma_target_met_exactly_at_target, lemma_closed_round_refuses_donations, total_donated,
};
