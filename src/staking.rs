use vstd::prelude::*;
use crate::address::Address;
use crate::error::ErrorCode;
use crate::records::{Config, StakeAccount, TokenTransfer};

verus! {

/// The records and keys that creating the global configuration involves.
pub struct Initialize {
    pub authority: Address,
    pub native_token_mint: Address,
    pub config_bump: u8,
    /// The configuration; `None` until it is created.
    pub config: Option<Config>,
}

/// The configuration as first created: staking not yet open, a one-day voting
/// period, a quorum of thirty percent, and rights of sixty percent for donors,
/// forty for stakers and a hundred for moderators.
pub open spec fn initial_config(authority: Address, native_token_mint: Address, bump: u8) -> Config {
    Config {
        admin: authority,
        native_token_mint,
        donation_fee: 0,
        staking_initialized: false,
        active_stakers: 0,
        total_amount_staked: 0,
        round_voting_period_in_days: 1,
        minimum_required_vote_percentage: 30,
        donator_voting_rights: 60,
        staker_voting_rights: 40,
        staker_moderation_rights: 100,
        staking_pool: Address::spec_zero(),
        bump,
    }
}

/// Creates the global configuration, administered by `ctx.authority`.
pub fn initialize(ctx: &mut Initialize) -> (r: Result<(), ErrorCode>)
    ensures
        old(ctx).config is Some ==> r == Err::<(), ErrorCode>(ErrorCode::AccountAlreadyInitialized)
            && *final(ctx) == *old(ctx),
        old(ctx).config is None ==> r is Ok && *final(ctx) == (Initialize {
            config: Some(initial_config(old(ctx).authority, old(ctx).native_token_mint, old(ctx).config_bump)),
            ..*old(ctx)
        }),
{
    if ctx.config.is_some() {
        return Err(ErrorCode::AccountAlreadyInitialized);
    }
    ctx.config = Some(
        Config {
            admin: ctx.authority,
            native_token_mint: ctx.native_token_mint,
            donation_fee: 0,
            staking_initialized: false,
            active_stakers: 0,
            total_amount_staked: 0,
            round_voting_period_in_days: 1,
            minimum_required_vote_percentage: 30,
            donator_voting_rights: 60,
            staker_voting_rights: 40,
            staker_moderation_rights: 100,
            staking_pool: Address::zero(),
            bump: ctx.config_bump,
        },
    );
    Ok(())
}

/// The records and keys that opening the staking pool involves.
pub struct InitializeStaking {
    pub config: Config,
    pub admin: Address,
    pub native_token_mint: Address,
    /// The token account that will hold the stakes.
    pub staking_pool: Address,
}

/// The first check that opening the staking pool fails, if any.
pub open spec fn initialize_staking_error(ctx: InitializeStaking) -> Option<ErrorCode> {
    if ctx.config.admin != ctx.admin || ctx.config.native_token_mint != ctx.native_token_mint {
        Some(ErrorCode::AccountMismatch)
    } else if ctx.config.staking_initialized {
        Some(ErrorCode::StakingAlreadyInitialized)
    } else {
        None
    }
}

/// Opens the staking pool, once, on the administrator's request.
pub fn initialize_staking(ctx: &mut InitializeStaking) -> (r: Result<(), ErrorCode>)
    ensures
        r is Err <==> initialize_staking_error(*old(ctx)) is Some,
        r is Err ==> r->Err_0 == initialize_staking_error(*old(ctx))->Some_0 && *final(ctx) == *old(ctx),
        r is Ok ==> *final(ctx) == (InitializeStaking {
            config: Config {
                staking_initialized: true,
                staking_pool: old(ctx).staking_pool,
                ..old(ctx).config
            },
            ..*old(ctx)
        }),
{
    if ctx.config.admin != ctx.admin || ctx.config.native_token_mint != ctx.native_token_mint {
        return Err(ErrorCode::AccountMismatch);
    }
    if ctx.config.staking_initialized {
        return Err(ErrorCode::StakingAlreadyInitialized);
    }
    ctx.config.staking_initialized = true;
    ctx.config.staking_pool = ctx.staking_pool;
    Ok(())
}

/// The records and keys that staking involves.
pub struct Stake {
    pub config: Config,
    pub staker: Address,
    /// The staker's token account that pays, with its owner and token.
    pub staker_token_account: Address,
    pub staker_token_owner: Address,
    pub staker_token_mint: Address,
    pub staking_pool: Address,
    /// The token that is staked.
    pub mint: Address,
    /// The staker's stake record; `None` while they hold no stake.
    pub stake_account: Option<StakeAccount>,
}

/// Whether the records handed in belong together: the pool and the token are
/// the configuration's, and the paying account is the staker's.
pub open spec fn stake_accounts_linked(ctx: Stake) -> bool {
    &&& ctx.config.staking_pool == ctx.staking_pool
    &&& ctx.config.native_token_mint == ctx.mint
    &&& ctx.staker_token_owner == ctx.staker
    &&& ctx.staker_token_mint == ctx.mint
}

/// Whether adding one staker and `amount` to the pool totals overflows.
pub open spec fn pool_totals_overflow(config: Config, amount: u64) -> bool {
    config.active_stakers + 1 > u64::MAX || config.total_amount_staked + amount > u64::MAX
}

/// The configuration with one more staker and `amount` more staked.
pub open spec fn pool_totals_raised(config: Config, amount: u64) -> Config {
    Config {
        active_stakers: (config.active_stakers + 1) as u64,
        total_amount_staked: (config.total_amount_staked + amount) as u64,
        ..config
    }
}

/// The first check that staking `amount` fails, if any.
pub open spec fn stake_error(ctx: Stake, amount: u64) -> Option<ErrorCode> {
    if !stake_accounts_linked(ctx) {
        Some(ErrorCode::AccountMismatch)
    } else if !ctx.config.staking_initialized {
        Some(ErrorCode::StakingNotInitialized)
    } else if ctx.stake_account is Some {
        Some(ErrorCode::AccountAlreadyInitialized)
    } else if pool_totals_overflow(ctx.config, amount) {
        Some(ErrorCode::ArithmeticOverflow)
    } else {
        None
    }
}

/// Stakes `amount` at time `now`, and returns the transfer into the pool that
/// the host makes.
pub fn stake(ctx: &mut Stake, amount: u64, now: i64) -> (r: Result<TokenTransfer, ErrorCode>)
    ensures
        r is Err <==> stake_error(*old(ctx), amount) is Some,
        r is Err ==> r->Err_0 == stake_error(*old(ctx), amount)->Some_0 && *final(ctx) == *old(ctx),
        r is Ok ==> r->Ok_0 == (TokenTransfer {
            from: old(ctx).staker_token_account,
            to: old(ctx).staking_pool,
            authority: old(ctx).staker,
            amount,
        }),
        r is Ok ==> *final(ctx) == (Stake {
            config: pool_totals_raised(old(ctx).config, amount),
            stake_account: Some(StakeAccount { stake_time: now, deposit: amount, reward: 0 }),
            ..*old(ctx)
        }),
{
    if ctx.config.staking_pool != ctx.staking_pool || ctx.config.native_token_mint != ctx.mint
        || ctx.staker_token_owner != ctx.staker || ctx.staker_token_mint != ctx.mint {
        return Err(ErrorCode::AccountMismatch);
    }
    if !ctx.config.staking_initialized {
        return Err(ErrorCode::StakingNotInitialized);
    }
    if ctx.stake_account.is_some() {
        return Err(ErrorCode::AccountAlreadyInitialized);
    }
    if ctx.config.active_stakers == u64::MAX || ctx.config.total_amount_staked > u64::MAX - amount {
        return Err(ErrorCode::ArithmeticOverflow);
    }
    let transfer = TokenTransfer {
        from: ctx.staker_token_account,
        to: ctx.staking_pool,
        authority: ctx.staker,
        amount,
    };
    ctx.stake_account = Some(StakeAccount { stake_time: now, deposit: amount, reward: 0 });
    ctx.config.active_stakers = ctx.config.active_stakers + 1;
    ctx.config.total_amount_staked = ctx.config.total_amount_staked + amount;
    Ok(transfer)
}

/// The records and keys that unstaking involves.
pub struct Unstake {
    pub config: Config,
    /// Key of the configuration, which has authority over the pool.
    pub config_address: Address,
    pub staker: Address,
    pub staking_pool: Address,
    pub staking_pool_mint: Address,
    /// The staker's token account that is paid back, with its owner and token.
    pub staker_token_account: Address,
    pub staker_token_owner: Address,
    pub staker_token_mint: Address,
    /// The staker's stake record; `None` once it is returned.
    pub stake_account: Option<StakeAccount>,
}

/// Whether the records handed in belong together: the pool is the
/// configuration's, and the account paid back is the staker's, for the pool's
/// token.
pub open spec fn unstake_accounts_linked(ctx: Unstake) -> bool {
    &&& ctx.config.staking_pool == ctx.staking_pool
    &&& ctx.staker_token_mint == ctx.staking_pool_mint
    &&& ctx.staker_token_owner == ctx.staker
}

/// The first check that unstaking fails, if any.
pub open spec fn unstake_error(ctx: Unstake) -> Option<ErrorCode> {
    if !unstake_accounts_linked(ctx) {
        Some(ErrorCode::AccountMismatch)
    } else if ctx.stake_account is None {
        Some(ErrorCode::NotStaked)
    } else if pool_totals_overflow(ctx.config, ctx.stake_account->Some_0.deposit) {
        Some(ErrorCode::ArithmeticOverflow)
    } else {
        None
    }
}

/// Returns the staker's whole deposit and removes their stake record; the
/// returned transfer out of the pool is made by the host.
///
/// The pool totals move here exactly as in `stake`: one more staker and the
/// deposit more staked. Whether unstaking ought to lower them instead is an
/// open question of the design, and this is kept until it is settled.
pub fn unstake(ctx: &mut Unstake) -> (r: Result<TokenTransfer, ErrorCode>)
    ensures
        r is Err <==> unstake_error(*old(ctx)) is Some,
        r is Err ==> r->Err_0 == unstake_error(*old(ctx))->Some_0 && *final(ctx) == *old(ctx),
        r is Ok ==> r->Ok_0 == (TokenTransfer {
            from: old(ctx).staking_pool,
            to: old(ctx).staker_token_account,
            authority: old(ctx).config_address,
            amount: old(ctx).stake_account->Some_0.deposit,
        }),
        r is Ok ==> *final(ctx) == (Unstake {
            config: pool_totals_raised(old(ctx).config, old(ctx).stake_account->Some_0.deposit),
            stake_account: None,
            ..*old(ctx)
        }),
{
    if ctx.config.staking_pool != ctx.staking_pool || ctx.staker_token_mint != ctx.staking_pool_mint
        || ctx.staker_token_owner != ctx.staker {
        return Err(ErrorCode::AccountMismatch);
    }
    let deposit: u64 = match ctx.stake_account {
        Some(s) => s.deposit,
        None => {
            return Err(ErrorCode::NotStaked);
        },
    };
    if ctx.config.active_stakers == u64::MAX || ctx.config.total_amount_staked > u64::MAX - deposit {
        return Err(ErrorCode::ArithmeticOverflow);
    }
    let transfer = TokenTransfer {
        from: ctx.staking_pool,
        to: ctx.staker_token_account,
        authority: ctx.config_address,
        amount: deposit,
    };
    ctx.config.active_stakers = ctx.config.active_stakers + 1;
    ctx.config.total_amount_staked = ctx.config.total_amount_staked + deposit;
    ctx.stake_account = None;
    Ok(transfer)
}

} // verus!
