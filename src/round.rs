use vstd::prelude::*;
use crate::address::Address;
use crate::error::ErrorCode;
use crate::records::{Campaign, Donator, Round, TokenTransfer};
use crate::status::{
    is_status_code, CAMPAIGN_ACTIVE, CAMPAIGN_TARGET_MET, ROUND_DONATIONS_OPEN, ROUND_ENDED, ROUND_TARGET_MET,
};

verus! {

/// The records and keys that a donation involves.
pub struct Donate {
    pub campaign: Campaign,
    pub vault: Address,
    /// The campaign's current round.
    pub round: Round,
    pub round_address: Address,
    pub donator: Address,
    /// The donor's token account that pays, with its owner and token.
    pub donator_token_account: Address,
    pub donator_token_owner: Address,
    pub donator_token_mint: Address,
    pub donator_account_bump: u8,
    /// The donor's donation record for this round; `None` until they donate.
    pub donator_account: Option<Donator>,
}

/// Whether the records handed in belong together: the vault is the campaign's,
/// the round is its current round, and the paying account is the donor's, for
/// the campaign's token.
pub open spec fn donate_accounts_linked(ctx: Donate) -> bool {
    &&& ctx.campaign.vault == ctx.vault
    &&& ctx.campaign.active_round_address == ctx.round_address
    &&& ctx.donator_token_mint == ctx.campaign.token_mint
    &&& ctx.donator_token_owner == ctx.donator
}

/// The first check that a donation of `amount` fails, if any.
pub open spec fn donate_error(ctx: Donate, amount: u64) -> Option<ErrorCode> {
    if !donate_accounts_linked(ctx) {
        Some(ErrorCode::AccountMismatch)
    } else if ctx.donator_account is Some {
        Some(ErrorCode::AlreadyDonated)
    } else if !is_status_code(ctx.campaign.status) || !is_status_code(ctx.round.status) {
        Some(ErrorCode::InvalidStatus)
    } else if ctx.campaign.status != CAMPAIGN_ACTIVE {
        Some(ErrorCode::CampaignInactive)
    } else if ctx.round.status != ROUND_DONATIONS_OPEN {
        Some(ErrorCode::RoundClosedToDonations)
    } else if ctx.campaign.balance + amount > u64::MAX {
        Some(ErrorCode::ArithmeticOverflow)
    } else if ctx.campaign.balance + amount > ctx.campaign.target {
        Some(ErrorCode::CantExceedCampaignTarget)
    } else if ctx.round.balance + amount > u64::MAX || ctx.round.donators + 1 > u64::MAX {
        Some(ErrorCode::ArithmeticOverflow)
    } else {
        None
    }
}

/// The round after it received `amount`; it leaves donations once its balance
/// reaches its target.
pub open spec fn round_after_donation(r: Round, amount: u64) -> Round {
    let balance = (r.balance + amount) as u64;
    Round {
        balance,
        donators: (r.donators + 1) as u64,
        status: if balance >= r.target { ROUND_TARGET_MET } else { r.status },
        ..r
    }
}

/// The campaign after it received `amount`; its target is met once its
/// balance reaches it.
pub open spec fn campaign_after_donation(c: Campaign, amount: u64) -> Campaign {
    let balance = (c.balance + amount) as u64;
    Campaign {
        balance,
        status: if balance >= c.target { CAMPAIGN_TARGET_MET } else { c.status },
        ..c
    }
}

/// The records after a donation of `amount`: both balances grow by it, the
/// round counts one more donor, and the donation is recorded against the
/// campaign's current round.
pub open spec fn donated(ctx: Donate, amount: u64) -> Donate {
    Donate {
        campaign: campaign_after_donation(ctx.campaign, amount),
        round: round_after_donation(ctx.round, amount),
        donator_account: Some(Donator { amount, round: ctx.campaign.active_round, bump: ctx.donator_account_bump }),
        ..ctx
    }
}

/// Donates `amount` to the campaign's current round, and returns the transfer
/// from the donor to the vault that the host makes. A donor gives at most
/// once to a round, and no donation may take the campaign past its target.
pub fn donate(ctx: &mut Donate, amount: u64) -> (r: Result<TokenTransfer, ErrorCode>)
    ensures
        r is Err <==> donate_error(*old(ctx), amount) is Some,
        r is Err ==> r->Err_0 == donate_error(*old(ctx), amount)->Some_0 && *final(ctx) == *old(ctx),
        r is Ok ==> r->Ok_0 == (TokenTransfer {
            from: old(ctx).donator_token_account,
            to: old(ctx).vault,
            authority: old(ctx).donator,
            amount,
        }),
        r is Ok ==> *final(ctx) == donated(*old(ctx), amount),
        old(ctx).campaign.wf() ==> final(ctx).campaign.wf(),
        old(ctx).round.wf() ==> final(ctx).round.wf(),
{
    if ctx.campaign.vault != ctx.vault || ctx.campaign.active_round_address != ctx.round_address
        || ctx.donator_token_mint != ctx.campaign.token_mint
        || ctx.donator_token_owner != ctx.donator {
        return Err(ErrorCode::AccountMismatch);
    }
    if ctx.donator_account.is_some() {
        return Err(ErrorCode::AlreadyDonated);
    }
    if ctx.campaign.status < 1 || ctx.campaign.status > 3 || ctx.round.status < 1
        || ctx.round.status > 3 {
        return Err(ErrorCode::InvalidStatus);
    }
    if ctx.campaign.status != CAMPAIGN_ACTIVE {
        return Err(ErrorCode::CampaignInactive);
    }
    if ctx.round.status != ROUND_DONATIONS_OPEN {
        return Err(ErrorCode::RoundClosedToDonations);
    }
    if ctx.campaign.balance > u64::MAX - amount {
        return Err(ErrorCode::ArithmeticOverflow);
    }
    if ctx.campaign.balance + amount > ctx.campaign.target {
        return Err(ErrorCode::CantExceedCampaignTarget);
    }
    if ctx.round.balance > u64::MAX - amount || ctx.round.donators == u64::MAX {
        return Err(ErrorCode::ArithmeticOverflow);
    }
    let transfer = TokenTransfer {
        from: ctx.donator_token_account,
        to: ctx.vault,
        authority: ctx.donator,
        amount,
    };
    ctx.campaign.balance = ctx.campaign.balance + amount;
    ctx.round.balance = ctx.round.balance + amount;
    ctx.round.donators = ctx.round.donators + 1;
    ctx.donator_account = Some(
        Donator { amount, round: ctx.campaign.active_round, bump: ctx.donator_account_bump },
    );
    if ctx.round.balance >= ctx.round.target {
        ctx.round.status = ROUND_TARGET_MET;
    }
    if ctx.campaign.balance >= ctx.campaign.target {
        ctx.campaign.status = CAMPAIGN_TARGET_MET;
    }
    Ok(transfer)
}

/// The records and keys that opening the next round involves.
pub struct StartNextRound {
    pub fundstarter: Address,
    pub campaign: Campaign,
    /// The campaign's current round, which must have ended.
    pub current_round: Round,
    pub current_round_address: Address,
    /// Key under which the next round is kept.
    pub next_round_address: Address,
    /// The next round's record; `None` until it is opened.
    pub next_round: Option<Round>,
}

/// Whether the round to open is the campaign's last.
pub open spec fn opens_last_round(c: Campaign) -> bool {
    c.active_round + 1 == c.total_rounds
}

/// The first check that opening the next round with `target` fails, if any.
pub open spec fn start_next_round_error(ctx: StartNextRound, target: u64) -> Option<ErrorCode> {
    let c = ctx.campaign;
    if c.fundstarter != ctx.fundstarter || c.active_round_address != ctx.current_round_address {
        Some(ErrorCode::AccountMismatch)
    } else if ctx.next_round is Some {
        Some(ErrorCode::AccountAlreadyInitialized)
    } else if c.active_round >= c.total_rounds {
        Some(ErrorCode::CantExceedMaxRound)
    } else if !c.can_start_next_round {
        Some(ErrorCode::CantStartNextRound)
    } else if ctx.current_round.status != ROUND_ENDED {
        Some(ErrorCode::RoundHasntEnded)
    } else if opens_last_round(c) && c.balance > c.target {
        Some(ErrorCode::ArithmeticOverflow)
    } else if !opens_last_round(c) && c.balance + target > c.target {
        Some(ErrorCode::CantExceedCampaignTarget)
    } else {
        None
    }
}

/// The next round's target: the last round takes whatever remains of the
/// campaign's target, whatever the caller asked for.
pub open spec fn next_round_target(c: Campaign, target: u64) -> u64 {
    if opens_last_round(c) {
        (c.target - c.balance) as u64
    } else {
        target
    }
}

/// Opens the campaign's next round, open to donations, after the current one
/// was tallied with leave to continue.
pub fn start_next_round(ctx: &mut StartNextRound, target: u64) -> (r: Result<(), ErrorCode>)
    ensures
        r is Err <==> start_next_round_error(*old(ctx), target) is Some,
        r is Err ==> r->Err_0 == start_next_round_error(*old(ctx), target)->Some_0
            && *final(ctx) == *old(ctx),
        r is Ok ==> *final(ctx) == (StartNextRound {
            campaign: Campaign {
                active_round: (old(ctx).campaign.active_round + 1) as u8,
                active_round_address: old(ctx).next_round_address,
                can_start_next_round: true,
                ..old(ctx).campaign
            },
            next_round: Some(Round {
                round_votes: Address::spec_zero(),
                round: (old(ctx).campaign.active_round + 1) as u8,
                target: next_round_target(old(ctx).campaign, target),
                balance: 0,
                donators: 0,
                status: ROUND_DONATIONS_OPEN,
            }),
            ..*old(ctx)
        }),
        old(ctx).campaign.wf() ==> final(ctx).campaign.wf(),
        r is Ok ==> final(ctx).next_round->Some_0.wf(),
        old(ctx).campaign.wf() ==> r != Err::<(), ErrorCode>(ErrorCode::ArithmeticOverflow),
{
    if ctx.campaign.fundstarter != ctx.fundstarter
        || ctx.campaign.active_round_address != ctx.current_round_address {
        return Err(ErrorCode::AccountMismatch);
    }
    if ctx.next_round.is_some() {
        return Err(ErrorCode::AccountAlreadyInitialized);
    }
    if ctx.campaign.active_round >= ctx.campaign.total_rounds {
        return Err(ErrorCode::CantExceedMaxRound);
    }
    if !ctx.campaign.can_start_next_round {
        return Err(ErrorCode::CantStartNextRound);
    }
    if ctx.current_round.status != ROUND_ENDED {
        return Err(ErrorCode::RoundHasntEnded);
    }
    let next: u8 = ctx.campaign.active_round + 1;
    let round_target: u64;
    if next == ctx.campaign.total_rounds {
        if ctx.campaign.balance > ctx.campaign.target {
            return Err(ErrorCode::ArithmeticOverflow);
        }
        round_target = ctx.campaign.target - ctx.campaign.balance;
    } else {
        if ctx.campaign.balance > ctx.campaign.target
            || target > ctx.campaign.target - ctx.campaign.balance {
            return Err(ErrorCode::CantExceedCampaignTarget);
        }
        round_target = target;
    }
    ctx.campaign.active_round_address = ctx.next_round_address;
    ctx.campaign.active_round = next;
    ctx.campaign.can_start_next_round = true;
    ctx.next_round = Some(
        Round {
            round_votes: Address::zero(),
            round: next,
            target: round_target,
            balance: 0,
            donators: 0,
            status: ROUND_DONATIONS_OPEN,
        },
    );
    Ok(())
}

} // verus!
