use vstd::prelude::*;
use crate::address::Address;
use crate::error::ErrorCode;
use crate::power::{voting_power, voting_power_result};
use crate::records::{Campaign, Config, Moderator, StakeAccount};
use crate::status::{CAMPAIGN_ENDED, MODERATOR_STAKER};
use crate::voting::{quorum_minimum, QUORUM_PERCENT};

verus! {

/// The records and keys that registering a staker as a moderator involves.
pub struct StakerModerationInit {
    pub config: Config,
    pub campaign: Campaign,
    pub staker: Address,
    pub stake_account: StakeAccount,
    /// The staker's moderation ballot for this campaign; `None` until they
    /// register.
    pub moderator_account: Option<Moderator>,
}

/// The first check that registering the moderator fails, if any.
pub open spec fn init_staker_moderation_error(ctx: StakerModerationInit) -> Option<ErrorCode> {
    if ctx.campaign.status == CAMPAIGN_ENDED {
        Some(ErrorCode::CampaignEnded)
    } else if ctx.moderator_account is Some {
        Some(ErrorCode::AccountAlreadyInitialized)
    } else {
        match voting_power_result(
            ctx.stake_account.deposit,
            ctx.config.staker_moderation_rights,
            ctx.config.total_amount_staked,
        ) {
            Ok(_) => None,
            Err(e) => Some(e),
        }
    }
}

/// Registers a staker as a moderator of a campaign that has not ended, with
/// power frozen now from their share of everything staked.
pub fn init_staker_moderation(ctx: &mut StakerModerationInit) -> (r: Result<(), ErrorCode>)
    ensures
        r is Err <==> init_staker_moderation_error(*old(ctx)) is Some,
        r is Err ==> r->Err_0 == init_staker_moderation_error(*old(ctx))->Some_0
            && *final(ctx) == *old(ctx),
        r is Ok ==> *final(ctx) == (StakerModerationInit {
            moderator_account: Some(Moderator {
                voting_power: voting_power_result(
                    old(ctx).stake_account.deposit,
                    old(ctx).config.staker_moderation_rights,
                    old(ctx).config.total_amount_staked,
                )->Ok_0,
                has_voted: false,
                moderator_type: MODERATOR_STAKER,
            }),
            ..*old(ctx)
        }),
{
    if ctx.campaign.status == CAMPAIGN_ENDED {
        return Err(ErrorCode::CampaignEnded);
    }
    if ctx.moderator_account.is_some() {
        return Err(ErrorCode::AccountAlreadyInitialized);
    }
    let power = voting_power(
        ctx.stake_account.deposit,
        ctx.config.staker_moderation_rights,
        ctx.config.total_amount_staked,
    )?;
    ctx.moderator_account = Some(
        Moderator { voting_power: power, has_voted: false, moderator_type: MODERATOR_STAKER },
    );
    Ok(())
}

/// The records that a moderation ballot involves.
pub struct Moderate {
    pub config: Config,
    pub campaign: Campaign,
    pub moderator_account: Moderator,
}

/// Whether counting the ballot overflows.
pub open spec fn moderation_overflows(ctx: Moderate, thumbs_up: bool) -> bool {
    let power = ctx.moderator_account.voting_power;
    ||| thumbs_up && ctx.campaign.is_valid_votes + power > u8::MAX
    ||| !thumbs_up && ctx.campaign.not_valid_votes + power > u8::MAX
    ||| ctx.campaign.moderator_votes + 1 > u64::MAX
    ||| QUORUM_PERCENT * ctx.config.active_stakers > u64::MAX
}

/// The first check that the moderation ballot fails, if any.
pub open spec fn moderate_error(ctx: Moderate, thumbs_up: bool) -> Option<ErrorCode> {
    if ctx.campaign.status == CAMPAIGN_ENDED {
        Some(ErrorCode::CampaignEnded)
    } else if ctx.moderator_account.has_voted {
        Some(ErrorCode::AlreadyVoted)
    } else if moderation_overflows(ctx, thumbs_up) {
        Some(ErrorCode::ArithmeticOverflow)
    } else {
        None
    }
}

/// The verdict of moderation on its current tallies: the campaign is invalid
/// exactly when the weight against it beats the weight for it and more
/// moderators voted than the quorum minimum of the active stakers.
pub open spec fn moderation_finds_valid(c: Campaign, active_stakers: u64) -> bool {
    !(c.not_valid_votes > c.is_valid_votes && c.moderator_votes > quorum_minimum(active_stakers as int))
}

/// The campaign with a ballot of `power` counted, for it or against it, and
/// its validity decided afresh from the new tallies.
pub open spec fn campaign_after_moderation(c: Campaign, power: u8, thumbs_up: bool, active_stakers: u64) -> Campaign {
    let counted = Campaign {
        is_valid_votes: if thumbs_up { (c.is_valid_votes + power) as u8 } else { c.is_valid_votes },
        not_valid_votes: if thumbs_up { c.not_valid_votes } else { (c.not_valid_votes + power) as u8 },
        moderator_votes: (c.moderator_votes + 1) as u64,
        ..c
    };
    Campaign { is_valid_campaign: moderation_finds_valid(counted, active_stakers), ..counted }
}

/// Casts a moderator's single ballot on whether the campaign is valid. The
/// verdict is recomputed on every ballot, so it may turn either way.
pub fn moderate(ctx: &mut Moderate, thumbs_up: bool) -> (r: Result<(), ErrorCode>)
    ensures
        r is Err <==> moderate_error(*old(ctx), thumbs_up) is Some,
        r is Err ==> r->Err_0 == moderate_error(*old(ctx), thumbs_up)->Some_0 && *final(ctx) == *old(ctx),
        r is Ok ==> *final(ctx) == (Moderate {
            campaign: campaign_after_moderation(
                old(ctx).campaign,
                old(ctx).moderator_account.voting_power,
                thumbs_up,
                old(ctx).config.active_stakers,
            ),
            moderator_account: Moderator { has_voted: true, ..old(ctx).moderator_account },
            ..*old(ctx)
        }),
        old(ctx).campaign.wf() ==> final(ctx).campaign.wf(),
{
    if ctx.campaign.status == CAMPAIGN_ENDED {
        return Err(ErrorCode::CampaignEnded);
    }
    if ctx.moderator_account.has_voted {
        return Err(ErrorCode::AlreadyVoted);
    }
    let power = ctx.moderator_account.voting_power;
    if thumbs_up {
        if ctx.campaign.is_valid_votes > u8::MAX - power {
            return Err(ErrorCode::ArithmeticOverflow);
        }
    } else {
        if ctx.campaign.not_valid_votes > u8::MAX - power {
            return Err(ErrorCode::ArithmeticOverflow);
        }
    }
    if ctx.campaign.moderator_votes == u64::MAX {
        return Err(ErrorCode::ArithmeticOverflow);
    }
    let minimum_votes_required = match QUORUM_PERCENT.checked_mul(ctx.config.active_stakers) {
        Some(m) => m / 100,
        None => {
            return Err(ErrorCode::ArithmeticOverflow);
        },
    };
    if thumbs_up {
        ctx.campaign.is_valid_votes = ctx.campaign.is_valid_votes + power;
    } else {
        ctx.campaign.not_valid_votes = ctx.campaign.not_valid_votes + power;
    }
    ctx.moderator_account.has_voted = true;
    ctx.campaign.moderator_votes = ctx.campaign.moderator_votes + 1;
    if ctx.campaign.not_valid_votes > ctx.campaign.is_valid_votes
        && ctx.campaign.moderator_votes > minimum_votes_required {
        ctx.campaign.is_valid_campaign = false;
    } else {
        ctx.campaign.is_valid_campaign = true;
    }
    Ok(())
}

} // verus!
