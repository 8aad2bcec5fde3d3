use vstd::prelude::*;
use crate::address::Address;
use crate::error::ErrorCode;
use crate::power::{voting_power, voting_power_result};
use crate::records::{Campaign, Config, Donator, NextRoundVoter, Round, RoundVote, StakeAccount};
use crate::status::{ROUND_ENDED, ROUND_TARGET_MET, VOTER_DONATOR, VOTER_STAKER};

verus! {

/// Seconds in a day.
pub const DAY_IN_SECONDS: u64 = 86400;

/// Share, in percent, of the eligible voters that must take part for a vote to
/// veto the next round, or for moderation to invalidate a campaign.
pub const QUORUM_PERCENT: u64 = 30;

/// The records and keys that opening a round's vote involves.
pub struct InitializeVoting {
    pub fundstarter: Address,
    pub vault: Address,
    pub campaign: Campaign,
    /// The campaign's current round.
    pub round: Round,
    pub round_address: Address,
    /// Key under which the vote record is kept.
    pub round_votes_address: Address,
    /// The round's vote record; `None` until voting opens.
    pub round_votes: Option<RoundVote>,
}

/// The first check that opening the round's vote fails, if any.
pub open spec fn initialize_voting_error(ctx: InitializeVoting) -> Option<ErrorCode> {
    let c = ctx.campaign;
    if c.fundstarter != ctx.fundstarter || c.vault != ctx.vault
        || c.active_round_address != ctx.round_address {
        Some(ErrorCode::AccountMismatch)
    } else if ctx.round.status != ROUND_TARGET_MET {
        Some(ErrorCode::RoundTargetNotMet)
    } else if ctx.round.round_votes != Address::spec_zero() || ctx.round_votes is Some {
        Some(ErrorCode::VotingAlreadyInitialized)
    } else if c.active_round >= c.total_rounds {
        Some(ErrorCode::CantExceedMaxRound)
    } else {
        None
    }
}

/// Opens the vote on whether the campaign continues past the current round,
/// which has met its target; the last round has no such vote.
pub fn initialize_voting(ctx: &mut InitializeVoting, now: i64) -> (r: Result<(), ErrorCode>)
    ensures
        r is Err <==> initialize_voting_error(*old(ctx)) is Some,
        r is Err ==> r->Err_0 == initialize_voting_error(*old(ctx))->Some_0 && *final(ctx) == *old(ctx),
        r is Ok ==> *final(ctx) == (InitializeVoting {
            round: Round { round_votes: old(ctx).round_votes_address, ..old(ctx).round },
            round_votes: Some(RoundVote {
                continue_campaign: 0,
                terminate_campaign: 0,
                donators_voted: 0,
                stakers_voted: 0,
                start_time: now,
                voting_ended: false,
            }),
            ..*old(ctx)
        }),
        old(ctx).round.wf() ==> final(ctx).round.wf(),
{
    if ctx.campaign.fundstarter != ctx.fundstarter || ctx.campaign.vault != ctx.vault
        || ctx.campaign.active_round_address != ctx.round_address {
        return Err(ErrorCode::AccountMismatch);
    }
    if ctx.round.status != ROUND_TARGET_MET {
        return Err(ErrorCode::RoundTargetNotMet);
    }
    if !ctx.round.round_votes.is_zero() || ctx.round_votes.is_some() {
        return Err(ErrorCode::VotingAlreadyInitialized);
    }
    if ctx.campaign.active_round >= ctx.campaign.total_rounds {
        return Err(ErrorCode::CantExceedMaxRound);
    }
    ctx.round_votes = Some(
        RoundVote {
            continue_campaign: 0,
            terminate_campaign: 0,
            donators_voted: 0,
            stakers_voted: 0,
            start_time: now,
            voting_ended: false,
        },
    );
    ctx.round.round_votes = ctx.round_votes_address;
    Ok(())
}

/// The records and keys that casting a ballot involves.
pub struct VoteNextRound {
    pub campaign: Campaign,
    pub round: Round,
    pub round_address: Address,
    pub round_votes: RoundVote,
    pub round_votes_address: Address,
    pub voter_account: NextRoundVoter,
}

/// Whether the round is the campaign's current one and the vote record is the
/// round's.
pub open spec fn vote_accounts_linked(ctx: VoteNextRound) -> bool {
    &&& ctx.campaign.active_round_address == ctx.round_address
    &&& ctx.round.round_votes == ctx.round_votes_address
}

/// Whether adding the ballot to the vote record overflows.
pub open spec fn ballot_overflows(v: RoundVote, voter: NextRoundVoter, continue_campaign: bool) -> bool {
    ||| continue_campaign && v.continue_campaign + voter.voting_power > u8::MAX
    ||| !continue_campaign && v.terminate_campaign + voter.voting_power > u8::MAX
    ||| voter.voter_type == VOTER_DONATOR && v.donators_voted + 1 > u64::MAX
    ||| voter.voter_type == VOTER_STAKER && v.stakers_voted + 1 > u64::MAX
}

/// The first check that casting the ballot fails, if any.
pub open spec fn vote_error(ctx: VoteNextRound, continue_campaign: bool) -> Option<ErrorCode> {
    if !vote_accounts_linked(ctx) {
        Some(ErrorCode::AccountMismatch)
    } else if ctx.round_votes.voting_ended {
        Some(ErrorCode::VotingEnded)
    } else if ctx.round.status != ROUND_TARGET_MET {
        Some(ErrorCode::RoundTargetNotMet)
    } else if ctx.voter_account.has_voted {
        Some(ErrorCode::AlreadyVoted)
    } else if !(1 <= ctx.voter_account.voter_type <= 2) {
        Some(ErrorCode::InvalidVoterType)
    } else if ballot_overflows(ctx.round_votes, ctx.voter_account, continue_campaign) {
        Some(ErrorCode::ArithmeticOverflow)
    } else {
        None
    }
}

/// The vote record with the ballot counted: the voter's power goes to one
/// side, and one more voter of their kind is counted.
pub open spec fn ballot_counted(v: RoundVote, voter: NextRoundVoter, continue_campaign: bool) -> RoundVote {
    RoundVote {
        continue_campaign: if continue_campaign {
            (v.continue_campaign + voter.voting_power) as u8
        } else {
            v.continue_campaign
        },
        terminate_campaign: if continue_campaign {
            v.terminate_campaign
        } else {
            (v.terminate_campaign + voter.voting_power) as u8
        },
        donators_voted: if voter.voter_type == VOTER_DONATOR {
            (v.donators_voted + 1) as u64
        } else {
            v.donators_voted
        },
        stakers_voted: if voter.voter_type == VOTER_STAKER {
            (v.stakers_voted + 1) as u64
        } else {
            v.stakers_voted
        },
        ..v
    }
}

/// Casts a voter's single ballot, to continue the campaign or to terminate it.
/// The ballot is refused only by the round's state (vote sealed, round not at
/// its target), not by the campaign's status.
pub fn vote(ctx: &mut VoteNextRound, continue_campaign: bool) -> (r: Result<(), ErrorCode>)
    ensures
        r is Err <==> vote_error(*old(ctx), continue_campaign) is Some,
        r is Err ==> r->Err_0 == vote_error(*old(ctx), continue_campaign)->Some_0
            && *final(ctx) == *old(ctx),
        r is Ok ==> *final(ctx) == (VoteNextRound {
            round_votes: ballot_counted(old(ctx).round_votes, old(ctx).voter_account, continue_campaign),
            voter_account: NextRoundVoter { has_voted: true, ..old(ctx).voter_account },
            ..*old(ctx)
        }),
{
    if ctx.campaign.active_round_address != ctx.round_address
        || ctx.round.round_votes != ctx.round_votes_address {
        return Err(ErrorCode::AccountMismatch);
    }
    if ctx.round_votes.voting_ended {
        return Err(ErrorCode::VotingEnded);
    }
    if ctx.round.status != ROUND_TARGET_MET {
        return Err(ErrorCode::RoundTargetNotMet);
    }
    if ctx.voter_account.has_voted {
        return Err(ErrorCode::AlreadyVoted);
    }
    let is_donator = ctx.voter_account.voter_type == VOTER_DONATOR;
    if !is_donator && ctx.voter_account.voter_type != VOTER_STAKER {
        return Err(ErrorCode::InvalidVoterType);
    }
    let power = ctx.voter_account.voting_power;
    if continue_campaign {
        if ctx.round_votes.continue_campaign > u8::MAX - power {
            return Err(ErrorCode::ArithmeticOverflow);
        }
    } else {
        if ctx.round_votes.terminate_campaign > u8::MAX - power {
            return Err(ErrorCode::ArithmeticOverflow);
        }
    }
    if is_donator {
        if ctx.round_votes.donators_voted == u64::MAX {
            return Err(ErrorCode::ArithmeticOverflow);
        }
    } else {
        if ctx.round_votes.stakers_voted == u64::MAX {
            return Err(ErrorCode::ArithmeticOverflow);
        }
    }
    if continue_campaign {
        ctx.round_votes.continue_campaign = ctx.round_votes.continue_campaign + power;
    } else {
        ctx.round_votes.terminate_campaign = ctx.round_votes.terminate_campaign + power;
    }
    if is_donator {
        ctx.round_votes.donators_voted = ctx.round_votes.donators_voted + 1;
    } else {
        ctx.round_votes.stakers_voted = ctx.round_votes.stakers_voted + 1;
    }
    ctx.voter_account.has_voted = true;
    Ok(())
}

/// The records and keys that tallying a round's vote involves.
pub struct TallyVotes {
    pub config: Config,
    pub campaign: Campaign,
    pub round: Round,
    pub round_address: Address,
    pub round_votes: RoundVote,
    pub round_votes_address: Address,
}

/// Length of the voting period, in seconds.
pub open spec fn voting_period_seconds(config: Config) -> int {
    config.round_voting_period_in_days * DAY_IN_SECONDS
}

/// Whether more than the whole voting period has passed at time `now`.
pub open spec fn voting_period_elapsed(config: Config, v: RoundVote, now: i64) -> bool {
    now - v.start_time > voting_period_seconds(config)
}

/// Everyone who could have voted on the round: the stakers and its donors.
pub open spec fn maximum_possible_voters(config: Config, round: Round) -> int {
    config.active_stakers + round.donators
}

/// Fewest voters, exclusive, for an outcome to count: the quorum share of
/// `eligible`, rounded down.
pub open spec fn quorum_minimum(eligible: int) -> int {
    QUORUM_PERCENT * eligible / 100
}

/// Whether the tally's arithmetic overflows.
pub open spec fn tally_overflows(ctx: TallyVotes) -> bool {
    let max = maximum_possible_voters(ctx.config, ctx.round);
    ||| max > u64::MAX
    ||| ctx.round_votes.stakers_voted + ctx.round_votes.donators_voted > u64::MAX
    ||| QUORUM_PERCENT * max > u64::MAX
}

/// The first check that tallying the round's vote at time `now` fails, if any.
pub open spec fn tally_error(ctx: TallyVotes, now: i64) -> Option<ErrorCode> {
    if !(ctx.campaign.active_round_address == ctx.round_address
        && ctx.round.round_votes == ctx.round_votes_address) {
        Some(ErrorCode::AccountMismatch)
    } else if ctx.round.status != ROUND_TARGET_MET {
        Some(ErrorCode::RoundTargetNotMet)
    } else if ctx.round_votes.voting_ended {
        Some(ErrorCode::VotingEnded)
    } else if !voting_period_elapsed(ctx.config, ctx.round_votes, now) {
        Some(ErrorCode::VotingStillActive)
    } else if tally_overflows(ctx) {
        Some(ErrorCode::ArithmeticOverflow)
    } else {
        None
    }
}

/// Whether the vote stops the campaign: the weight to terminate beats the
/// weight to continue, and more voters took part than the quorum minimum.
pub open spec fn continuation_vetoed(v: RoundVote, eligible: int) -> bool {
    &&& v.terminate_campaign > v.continue_campaign
    &&& v.donators_voted + v.stakers_voted > quorum_minimum(eligible)
}

/// Tallies the round's vote once its period has fully passed, and ends the
/// round. Only a quorate majority to terminate withdraws the leave to start
/// the next round; any other outcome leaves it as it was.
pub fn tally_votes(ctx: &mut TallyVotes, now: i64) -> (r: Result<(), ErrorCode>)
    ensures
        r is Err <==> tally_error(*old(ctx), now) is Some,
        r is Err ==> r->Err_0 == tally_error(*old(ctx), now)->Some_0 && *final(ctx) == *old(ctx),
        r is Ok ==> *final(ctx) == (TallyVotes {
            campaign: Campaign {
                can_start_next_round: old(ctx).campaign.can_start_next_round
                    && !continuation_vetoed(
                        old(ctx).round_votes,
                        maximum_possible_voters(old(ctx).config, old(ctx).round),
                    ),
                ..old(ctx).campaign
            },
            round: Round { status: ROUND_ENDED, ..old(ctx).round },
            round_votes: RoundVote { voting_ended: true, ..old(ctx).round_votes },
            ..*old(ctx)
        }),
        old(ctx).campaign.wf() ==> final(ctx).campaign.wf(),
        old(ctx).round.wf() ==> final(ctx).round.wf(),
{
    if ctx.campaign.active_round_address != ctx.round_address
        || ctx.round.round_votes != ctx.round_votes_address {
        return Err(ErrorCode::AccountMismatch);
    }
    if ctx.round.status != ROUND_TARGET_MET {
        return Err(ErrorCode::RoundTargetNotMet);
    }
    if ctx.round_votes.voting_ended {
        return Err(ErrorCode::VotingEnded);
    }
    let elapsed: i128 = now as i128 - ctx.round_votes.start_time as i128;
    let days: i128 = ctx.config.round_voting_period_in_days as i128;
    assert(0 <= days * DAY_IN_SECONDS <= 255 * DAY_IN_SECONDS) by (nonlinear_arith)
        requires
            0 <= days <= 255,
            DAY_IN_SECONDS == 86400,
    ;
    let period: i128 = days * DAY_IN_SECONDS as i128;
    if elapsed <= period {
        return Err(ErrorCode::VotingStillActive);
    }
    if ctx.config.active_stakers > u64::MAX - ctx.round.donators {
        return Err(ErrorCode::ArithmeticOverflow);
    }
    let maximum_voters: u64 = ctx.config.active_stakers + ctx.round.donators;
    if ctx.round_votes.stakers_voted > u64::MAX - ctx.round_votes.donators_voted {
        return Err(ErrorCode::ArithmeticOverflow);
    }
    let voters_this_round: u64 = ctx.round_votes.stakers_voted + ctx.round_votes.donators_voted;
    let minimum_voters = match QUORUM_PERCENT.checked_mul(maximum_voters) {
        Some(m) => m / 100,
        None => {
            return Err(ErrorCode::ArithmeticOverflow);
        },
    };
    if ctx.round_votes.terminate_campaign > ctx.round_votes.continue_campaign
        && voters_this_round > minimum_voters {
        ctx.campaign.can_start_next_round = false;
    }
    ctx.round.status = ROUND_ENDED;
    ctx.round_votes.voting_ended = true;
    Ok(())
}

/// The records and keys that registering a donor as a voter involves.
pub struct DonatorVotingInit {
    pub config: Config,
    pub campaign: Campaign,
    pub round: Round,
    pub round_address: Address,
    pub donator: Address,
    /// The donor's donation to this round.
    pub donator_account: Donator,
    pub voter_account_bump: u8,
    /// The donor's ballot for this round; `None` until they register.
    pub voter_account: Option<NextRoundVoter>,
}

/// The first check that registering the donor fails, if any.
pub open spec fn init_donator_voting_error(ctx: DonatorVotingInit) -> Option<ErrorCode> {
    if ctx.campaign.active_round_address != ctx.round_address
        || ctx.donator_account.round != ctx.round.round {
        Some(ErrorCode::AccountMismatch)
    } else if ctx.round.status != ROUND_TARGET_MET {
        Some(ErrorCode::RoundTargetNotMet)
    } else if ctx.voter_account is Some {
        Some(ErrorCode::AccountAlreadyInitialized)
    } else {
        match voting_power_result(
            ctx.donator_account.amount,
            ctx.config.donator_voting_rights,
            ctx.round.balance,
        ) {
            Ok(_) => None,
            Err(e) => Some(e),
        }
    }
}

/// Registers a donor of the current round as a voter, with power frozen now
/// from their share of the round's balance.
pub fn init_donator_voting(ctx: &mut DonatorVotingInit) -> (r: Result<(), ErrorCode>)
    ensures
        r is Err <==> init_donator_voting_error(*old(ctx)) is Some,
        r is Err ==> r->Err_0 == init_donator_voting_error(*old(ctx))->Some_0
            && *final(ctx) == *old(ctx),
        r is Ok ==> *final(ctx) == (DonatorVotingInit {
            voter_account: Some(NextRoundVoter {
                voting_power: voting_power_result(
                    old(ctx).donator_account.amount,
                    old(ctx).config.donator_voting_rights,
                    old(ctx).round.balance,
                )->Ok_0,
                has_voted: false,
                voter_type: VOTER_DONATOR,
                bump: old(ctx).voter_account_bump,
            }),
            ..*old(ctx)
        }),
{
    if ctx.campaign.active_round_address != ctx.round_address
        || ctx.donator_account.round != ctx.round.round {
        return Err(ErrorCode::AccountMismatch);
    }
    if ctx.round.status != ROUND_TARGET_MET {
        return Err(ErrorCode::RoundTargetNotMet);
    }
    if ctx.voter_account.is_some() {
        return Err(ErrorCode::AccountAlreadyInitialized);
    }
    let power = voting_power(
        ctx.donator_account.amount,
        ctx.config.donator_voting_rights,
        ctx.round.balance,
    )?;
    ctx.voter_account = Some(
        NextRoundVoter {
            voting_power: power,
            has_voted: false,
            voter_type: VOTER_DONATOR,
            bump: ctx.voter_account_bump,
        },
    );
    Ok(())
}

/// The records and keys that registering a staker as a voter involves.
pub struct StakerVotingInit {
    pub config: Config,
    pub campaign: Campaign,
    pub round: Round,
    pub round_address: Address,
    pub staker: Address,
    pub stake_account: StakeAccount,
    pub voter_account_bump: u8,
    /// The staker's ballot for this round; `None` until they register.
    pub voter_account: Option<NextRoundVoter>,
}

/// The first check that registering the staker fails, if any.
pub open spec fn init_staker_voting_error(ctx: StakerVotingInit) -> Option<ErrorCode> {
    if ctx.campaign.active_round_address != ctx.round_address {
        Some(ErrorCode::AccountMismatch)
    } else if ctx.round.status != ROUND_TARGET_MET {
        Some(ErrorCode::RoundTargetNotMet)
    } else if ctx.voter_account is Some {
        Some(ErrorCode::AccountAlreadyInitialized)
    } else {
        match voting_power_result(
            ctx.stake_account.deposit,
            ctx.config.staker_voting_rights,
            ctx.config.total_amount_staked,
        ) {
            Ok(_) => None,
            Err(e) => Some(e),
        }
    }
}

/// Registers a staker as a voter on the current round, with power frozen now
/// from their share of everything staked.
pub fn init_staker_voting(ctx: &mut StakerVotingInit) -> (r: Result<(), ErrorCode>)
    ensures
        r is Err <==> init_staker_voting_error(*old(ctx)) is Some,
        r is Err ==> r->Err_0 == init_staker_voting_error(*old(ctx))->Some_0
            && *final(ctx) == *old(ctx),
        r is Ok ==> *final(ctx) == (StakerVotingInit {
            voter_account: Some(NextRoundVoter {
                voting_power: voting_power_result(
                    old(ctx).stake_account.deposit,
                    old(ctx).config.staker_voting_rights,
                    old(ctx).config.total_amount_staked,
                )->Ok_0,
                has_voted: false,
                voter_type: VOTER_STAKER,
                bump: old(ctx).voter_account_bump,
            }),
            ..*old(ctx)
        }),
{
    if ctx.campaign.active_round_address != ctx.round_address {
        return Err(ErrorCode::AccountMismatch);
    }
    if ctx.round.status != ROUND_TARGET_MET {
        return Err(ErrorCode::RoundTargetNotMet);
    }
    if ctx.voter_account.is_some() {
        return Err(ErrorCode::AccountAlreadyInitialized);
    }
    let power = voting_power(
        ctx.stake_account.deposit,
        ctx.config.staker_voting_rights,
        ctx.config.total_amount_staked,
    )?;
    ctx.voter_account = Some(
        NextRoundVoter {
            voting_power: power,
            has_voted: false,
            voter_type: VOTER_STAKER,
            bump: ctx.voter_account_bump,
        },
    );
    Ok(())
}

} // verus!
