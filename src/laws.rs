use vstd::prelude::*;
use crate::error::{ErrorCode, ErrorKind};
use crate::moderation::{campaign_after_moderation, moderate_error, Moderate};
use crate::records::{Campaign, Donator, Round};
use crate::round::{
    campaign_after_donation, donate_accounts_linked, donate_error, donated, next_round_target,
    opens_last_round,
    round_after_donation, start_next_round_error, Donate, StartNextRound,
};
use crate::campaign::{withdraw_error, Withdraw};
use crate::status::{is_status_code, ROUND_DONATIONS_OPEN, ROUND_ENDED, ROUND_TARGET_MET};
use crate::voting::{tally_error, tally_overflows, voting_period_seconds, TallyVotes};

verus! {

/// The sum of the amounts of `donations`.
pub open spec fn total_donated(donations: Seq<Donator>) -> int
    decreases donations.len(),
{
    if donations.len() == 0 {
        0
    } else {
        total_donated(donations.drop_last()) + donations.last().amount
    }
}

/// A campaign's balance is the sum of the donations recorded for it: starting
/// from a fresh campaign (balance zero), after each donation in turn
/// (`campaigns[i + 1]` is `campaigns[i]` after `donations[i]`), the balance
/// equals the total of all donations so far.
pub proof fn lemma_balance_is_sum_of_donations(campaigns: Seq<Campaign>, donations: Seq<Donator>)
    requires
        campaigns.len() == donations.len() + 1,
        campaigns[0].balance == 0,
        forall|i: int|
            0 <= i < donations.len() ==> campaigns[i].balance + donations[i].amount <= u64::MAX,
        forall|i: int|
            0 <= i < donations.len() ==> #[trigger] campaigns[i + 1] == campaign_after_donation(
                campaigns[i],
                donations[i].amount,
            ),
    ensures
        campaigns.last().balance == total_donated(donations),
    decreases donations.len(),
{
    if donations.len() > 0 {
        let n = donations.len() - 1;
        let cs = campaigns.drop_last();
        let ds = donations.drop_last();
        assert forall|i: int| 0 <= i < ds.len() implies #[trigger] cs[i + 1] == campaign_after_donation(
            cs[i],
            ds[i].amount,
        ) by {
            assert(campaigns[i + 1] == campaign_after_donation(campaigns[i], donations[i].amount));
        }
        lemma_balance_is_sum_of_donations(cs, ds);
        assert(campaigns[n + 1] == campaign_after_donation(campaigns[n], donations[n].amount));
    }
}

/// A donor gives at most once to a round: whenever the donor's record for
/// the round already exists, a donation by them to that round, of any amount,
/// is refused as a duplicate (and a refused donation changes nothing), given
/// records that belong together.
pub proof fn lemma_existing_donation_refused(ctx: Donate, amount: u64)
    requires
        donate_accounts_linked(ctx),
        ctx.donator_account is Some,
    ensures
        donate_error(ctx, amount) == Some(ErrorCode::AlreadyDonated),
        ErrorCode::AlreadyDonated.spec_kind() == ErrorKind::Duplicate,
{
}

/// In particular, after a donation succeeds, a second donation by the same
/// donor to the same round, of any amount, is refused as a duplicate.
pub proof fn lemma_second_donation_refused(ctx: Donate, first: u64, second: u64)
    requires
        donate_error(ctx, first) is None,
    ensures
        donate_error(donated(ctx, first), second) == Some(ErrorCode::AlreadyDonated),
{
    lemma_existing_donation_refused(donated(ctx, first), second);
}

/// A round open to donations meets its target exactly when a donation brings
/// its balance to the target or beyond.
pub proof fn lemma_target_met_exactly_at_target(r: Round, amount: u64)
    requires
        r.status == ROUND_DONATIONS_OPEN,
        r.balance + amount <= u64::MAX,
    ensures
        round_after_donation(r, amount).status == ROUND_TARGET_MET <==> round_after_donation(r, amount).balance
            >= round_after_donation(r, amount).target,
{
}

/// A round that has met its target, or has ended, takes no more donations:
/// given records that belong together, from a donor who has not yet given to
/// the round, on a campaign whose status decodes, a donation is refused with a
/// state error, and (being refused) changes neither the round's balance nor
/// its status.
pub proof fn lemma_closed_round_refuses_donations(ctx: Donate, amount: u64)
    requires
        donate_accounts_linked(ctx),
        ctx.donator_account is None,
        is_status_code(ctx.campaign.status),
        ctx.round.status == ROUND_TARGET_MET || ctx.round.status == ROUND_ENDED,
    ensures
        donate_error(ctx, amount) is Some,
        donate_error(ctx, amount)->Some_0.spec_kind() == ErrorKind::State,
{
}

/// A tally waits out the whole voting period: on a round whose vote is open,
/// it is refused as premature (a state error) at any time no later than the
/// period's end, and goes through one second after it.
pub proof fn lemma_tally_waits_out_period(ctx: TallyVotes, now: i64)
    requires
        ctx.campaign.active_round_address == ctx.round_address,
        ctx.round.round_votes == ctx.round_votes_address,
        ctx.round.status == ROUND_TARGET_MET,
        !ctx.round_votes.voting_ended,
        !tally_overflows(ctx),
        ctx.round_votes.start_time + voting_period_seconds(ctx.config) + 1 <= i64::MAX,
    ensures
        now - ctx.round_votes.start_time <= voting_period_seconds(ctx.config) ==> tally_error(ctx, now)
            == Some(ErrorCode::VotingStillActive),
        ErrorCode::VotingStillActive.spec_kind() == ErrorKind::State,
        tally_error(
            ctx,
            (ctx.round_votes.start_time + voting_period_seconds(ctx.config) + 1) as i64,
        ) is None,
{
}

/// Opening the last round ignores the target asked for: once the current
/// round has ended with leave to continue, on a campaign within its target,
/// with records that belong together and no next round yet, opening the last
/// round succeeds whatever target is asked, and the new round's target is
/// exactly what remains of the campaign's.
pub proof fn lemma_last_round_takes_remainder(ctx: StartNextRound, asked: u64)
    requires
        ctx.campaign.fundstarter == ctx.fundstarter,
        ctx.campaign.active_round_address == ctx.current_round_address,
        ctx.next_round is None,
        opens_last_round(ctx.campaign),
        ctx.current_round.status == ROUND_ENDED,
        ctx.campaign.can_start_next_round,
        ctx.campaign.balance <= ctx.campaign.target,
    ensures
        start_next_round_error(ctx, asked) is None,
        next_round_target(ctx.campaign, asked) == ctx.campaign.target - ctx.campaign.balance,
{
}

/// Moderation is not one-way: on a campaign currently ruled invalid, a
/// favourable ballot that lifts the weight for the campaign to at least the
/// weight against it makes the campaign valid again.
pub proof fn lemma_moderation_can_restore_validity(ctx: Moderate)
    requires
        !ctx.campaign.is_valid_campaign,
        moderate_error(ctx, true) is None,
        ctx.campaign.is_valid_votes + ctx.moderator_account.voting_power >= ctx.campaign.not_valid_votes,
    ensures
        campaign_after_moderation(
            ctx.campaign,
            ctx.moderator_account.voting_power,
            true,
            ctx.config.active_stakers,
        ).is_valid_campaign,
{
}

/// A campaign ruled invalid can never be withdrawn from, whatever its
/// balance: the withdrawal is refused with a state error.
pub proof fn lemma_invalid_campaign_never_withdraws(ctx: Withdraw)
    requires
        !ctx.campaign.is_valid_campaign,
    ensures
        withdraw_error(ctx) == Some(ErrorCode::CampaignInvalid),
        ErrorCode::CampaignInvalid.spec_kind() == ErrorKind::State,
{
}

} // verus!
