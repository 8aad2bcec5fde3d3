use vstd::prelude::*;
use vstd::string::StrSliceExecFns;
use crate::address::Address;
use crate::error::ErrorCode;
use crate::records::{Campaign, CloseAccount, Round, TokenTransfer, MAX_DESCRIPTION_SIZE};
use crate::status::{CAMPAIGN_ACTIVE, CAMPAIGN_ENDED, ROUND_DONATIONS_OPEN};

verus! {

/// The records and keys that opening a campaign involves.
pub struct StartCampaign {
    pub fundstarter: Address,
    pub vault: Address,
    pub token_mint: Address,
    /// Key under which the first round is kept.
    pub round_address: Address,
    pub campaign_bump: u8,
    /// The fundstarter's campaign record; `None` until it is opened.
    pub campaign: Option<Campaign>,
    /// The first round's record; `None` until the campaign is opened.
    pub round: Option<Round>,
}

/// The first check that opening a campaign fails, if any.
pub open spec fn start_campaign_error(
    ctx: StartCampaign,
    description: Seq<char>,
    target: u64,
    number_of_funding_rounds: u8,
    initial_target: u64,
) -> Option<ErrorCode> {
    if ctx.campaign is Some || ctx.round is Some {
        Some(ErrorCode::AccountAlreadyInitialized)
    } else if target == 0 {
        Some(ErrorCode::InvalidTarget)
    } else if description.len() > MAX_DESCRIPTION_SIZE {
        Some(ErrorCode::DescriptionTooLong)
    } else if initial_target > target {
        Some(ErrorCode::CantExceedCampaignTarget)
    } else if number_of_funding_rounds == 0 {
        Some(ErrorCode::InvalidRoundCount)
    } else {
        None
    }
}

/// The first round's target: the whole target when there is a single round.
pub open spec fn first_round_target(target: u64, number_of_funding_rounds: u8, initial_target: u64) -> u64 {
    if number_of_funding_rounds == 1 {
        target
    } else {
        initial_target
    }
}

/// The campaign record that opening a campaign creates.
pub open spec fn opened_campaign(
    ctx: StartCampaign,
    description: String,
    target: u64,
    number_of_funding_rounds: u8,
    cid: String,
) -> Campaign {
    Campaign {
        fundstarter: ctx.fundstarter,
        vault: ctx.vault,
        description,
        target,
        cid,
        balance: 0,
        token_mint: ctx.token_mint,
        status: CAMPAIGN_ACTIVE,
        can_start_next_round: true,
        total_rounds: number_of_funding_rounds,
        active_round: 1,
        active_round_address: ctx.round_address,
        is_valid_votes: 0,
        not_valid_votes: 0,
        moderator_votes: 0,
        is_valid_campaign: true,
        bump: ctx.campaign_bump,
    }
}

/// The first round that opening a campaign creates.
pub open spec fn opened_round(target: u64, number_of_funding_rounds: u8, initial_target: u64) -> Round {
    Round {
        round_votes: Address::spec_zero(),
        round: 1,
        target: first_round_target(target, number_of_funding_rounds, initial_target),
        balance: 0,
        donators: 0,
        status: ROUND_DONATIONS_OPEN,
    }
}

/// Opens a campaign with its first round, open to donations.
pub fn start_campaign(
    ctx: &mut StartCampaign,
    description: String,
    target: u64,
    number_of_funding_rounds: u8,
    initial_target: u64,
    cid: String,
) -> (r: Result<(), ErrorCode>)
    ensures
        r is Err <==> start_campaign_error(*old(ctx), description@, target, number_of_funding_rounds, initial_target) is Some,
        r is Err ==> r->Err_0 == start_campaign_error(*old(ctx), description@, target, number_of_funding_rounds, initial_target)->Some_0
            && *final(ctx) == *old(ctx),
        r is Ok ==> *final(ctx) == (StartCampaign {
            campaign: Some(opened_campaign(*old(ctx), description, target, number_of_funding_rounds, cid)),
            round: Some(opened_round(target, number_of_funding_rounds, initial_target)),
            ..*old(ctx)
        }),
        r is Ok ==> final(ctx).campaign->Some_0.wf() && final(ctx).round->Some_0.wf(),
{
    if ctx.campaign.is_some() || ctx.round.is_some() {
        return Err(ErrorCode::AccountAlreadyInitialized);
    }
    if target == 0 {
        return Err(ErrorCode::InvalidTarget);
    }
    if description.as_str().unicode_len() > MAX_DESCRIPTION_SIZE {
        return Err(ErrorCode::DescriptionTooLong);
    }
    if initial_target > target {
        return Err(ErrorCode::CantExceedCampaignTarget);
    }
    if number_of_funding_rounds == 0 {
        return Err(ErrorCode::InvalidRoundCount);
    }
    let initial_round_target: u64 = if number_of_funding_rounds == 1 {
        target
    } else {
        initial_target
    };
    ctx.campaign = Some(
        Campaign {
            fundstarter: ctx.fundstarter,
            vault: ctx.vault,
            description,
            target,
            cid,
            balance: 0,
            token_mint: ctx.token_mint,
            status: CAMPAIGN_ACTIVE,
            can_start_next_round: true,
            total_rounds: number_of_funding_rounds,
            active_round: 1,
            active_round_address: ctx.round_address,
            is_valid_votes: 0,
            not_valid_votes: 0,
            moderator_votes: 0,
            is_valid_campaign: true,
            bump: ctx.campaign_bump,
        },
    );
    ctx.round = Some(
        Round {
            round_votes: Address::zero(),
            round: 1,
            target: initial_round_target,
            balance: 0,
            donators: 0,
            status: ROUND_DONATIONS_OPEN,
        },
    );
    Ok(())
}

/// The records and keys that a withdrawal involves.
pub struct Withdraw {
    pub campaign: Campaign,
    /// Key of the campaign record, which has authority over the vault.
    pub campaign_address: Address,
    pub fundstarter: Address,
    pub vault: Address,
    /// The token account that receives the funds.
    pub wallet_to_withdraw_to: Address,
    pub wallet_owner: Address,
    pub wallet_mint: Address,
}

/// Whether the keys handed in belong to the campaign: the vault is its vault,
/// and the receiving wallet is the fundstarter's, for the campaign's token.
pub open spec fn withdraw_accounts_linked(ctx: Withdraw) -> bool {
    &&& ctx.campaign.fundstarter == ctx.fundstarter
    &&& ctx.campaign.vault == ctx.vault
    &&& ctx.wallet_mint == ctx.campaign.token_mint
    &&& ctx.wallet_owner == ctx.fundstarter
}

/// The first check that a withdrawal fails, if any. A campaign ruled invalid
/// by moderation can never be withdrawn from.
pub open spec fn withdraw_error(ctx: Withdraw) -> Option<ErrorCode> {
    if !ctx.campaign.is_valid_campaign {
        Some(ErrorCode::CampaignInvalid)
    } else if !withdraw_accounts_linked(ctx) {
        Some(ErrorCode::AccountMismatch)
    } else {
        None
    }
}

/// The campaign status after a withdrawal: a withdrawal in the last round ends
/// the campaign.
pub open spec fn status_after_withdraw(c: Campaign) -> u8 {
    if c.active_round == c.total_rounds {
        CAMPAIGN_ENDED
    } else {
        c.status
    }
}

/// Withdraws everything the vault holds (`vault_amount`) to the fundstarter's
/// wallet, and returns the transfer that the host makes. The campaign's
/// balance is the total raised and is left as it is.
pub fn withdraw(ctx: &mut Withdraw, vault_amount: u64) -> (r: Result<TokenTransfer, ErrorCode>)
    ensures
        r is Err <==> withdraw_error(*old(ctx)) is Some,
        r is Err ==> r->Err_0 == withdraw_error(*old(ctx))->Some_0 && *final(ctx) == *old(ctx),
        r is Ok ==> r->Ok_0 == (TokenTransfer {
            from: old(ctx).vault,
            to: old(ctx).wallet_to_withdraw_to,
            authority: old(ctx).campaign_address,
            amount: vault_amount,
        }),
        r is Ok ==> *final(ctx) == (Withdraw {
            campaign: Campaign { status: status_after_withdraw(old(ctx).campaign), ..old(ctx).campaign },
            ..*old(ctx)
        }),
        old(ctx).campaign.wf() ==> final(ctx).campaign.wf(),
{
    if !ctx.campaign.is_valid_campaign {
        return Err(ErrorCode::CampaignInvalid);
    }
    if ctx.campaign.fundstarter != ctx.fundstarter || ctx.campaign.vault != ctx.vault
        || ctx.wallet_mint != ctx.campaign.token_mint || ctx.wallet_owner != ctx.fundstarter {
        return Err(ErrorCode::AccountMismatch);
    }
    let transfer = TokenTransfer {
        from: ctx.vault,
        to: ctx.wallet_to_withdraw_to,
        authority: ctx.campaign_address,
        amount: vault_amount,
    };
    if ctx.campaign.active_round == ctx.campaign.total_rounds {
        ctx.campaign.status = CAMPAIGN_ENDED;
    }
    Ok(transfer)
}

/// After a withdrawal's transfer, the vault is closed, its rent going to the
/// fundstarter, exactly when nothing (`remaining`) is left in it.
pub fn close_vault_if_empty(ctx: &Withdraw, remaining: u64) -> (r: Option<CloseAccount>)
    ensures
        remaining == 0 ==> r == Some(CloseAccount {
            account: ctx.vault,
            destination: ctx.fundstarter,
            authority: ctx.campaign_address,
        }),
        remaining != 0 ==> r is None,
{
    if remaining == 0 {
        Some(CloseAccount { account: ctx.vault, destination: ctx.fundstarter, authority: ctx.campaign_address })
    } else {
        None
    }
}

} // verus!
