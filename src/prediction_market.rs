use vstd::prelude::*;

use crate::accounts::{Pubkey, Transfer};
use crate::amm::{
    calculate_shares_out, get_no_price, get_yes_price, price_of, shares_out,
};
use crate::market::{ErrorCode, Market, MarketStatus, Position};

verus! {

// ---------------------------------------------------------------------------
// What each operation does, stated over whole records.
// ---------------------------------------------------------------------------

/// The market a successful creation produces.
pub open spec fn created_market(
    creator: Pubkey,
    now: i64,
    model: Pubkey,
    question: String,
    resolution_time: i64,
    min_stake: u64,
    virtual_liquidity: u64,
) -> Market {
    Market {
        creator,
        model,
        question,
        yes_pool: 0,
        no_pool: 0,
        total_volume: 0,
        status: MarketStatus::Open,
        resolution_time,
        resolved_at: 0,
        winning_outcome: None,
        min_stake,
        created_at: now,
        amm_enabled: true,
        virtual_yes_reserve: virtual_liquidity,
        virtual_no_reserve: virtual_liquidity,
        k_constant: (virtual_liquidity * virtual_liquidity) as u64,
        total_yes_shares: 0,
        total_no_shares: 0,
    }
}

/// Creation: the deadline must lie in the future and the curve needs a
/// positive seed whose square fits.
pub open spec fn create_step(
    creator: Pubkey,
    now: i64,
    model: Pubkey,
    question: String,
    resolution_time: i64,
    min_stake: u64,
    virtual_liquidity: u64,
) -> Result<Market, ErrorCode> {
    if resolution_time <= now {
        Err(ErrorCode::InvalidResolutionTime)
    } else if virtual_liquidity == 0 {
        Err(ErrorCode::InvalidLiquidity)
    } else if virtual_liquidity * virtual_liquidity > u64::MAX {
        Err(ErrorCode::MathOverflow)
    } else {
        Ok(
            created_market(
                creator,
                now,
                model,
                question,
                resolution_time,
                min_stake,
                virtual_liquidity,
            ),
        )
    }
}

/// Shares a bet receives: from the curve, or one per unit staked when the
/// market runs without a curve.
pub open spec fn bet_shares(m: Market, outcome: bool, amount: u64) -> Result<u64, ErrorCode> {
    if m.amm_enabled {
        shares_out(m, outcome, amount)
    } else {
        Ok(amount)
    }
}

/// Whether recording a bet would push some counter past the `u64` range.
pub open spec fn bet_overflows(
    m: Market,
    p: Position,
    outcome: bool,
    amount: u64,
    shares: u64,
) -> bool {
    if outcome {
        m.yes_pool + amount > u64::MAX || m.total_yes_shares + shares > u64::MAX
            || m.total_volume + amount > u64::MAX || p.yes_shares + shares > u64::MAX
            || p.yes_stake + amount > u64::MAX || p.total_stake + amount > u64::MAX
    } else {
        m.no_pool + amount > u64::MAX || m.total_no_shares + shares > u64::MAX
            || m.total_volume + amount > u64::MAX || p.no_shares + shares > u64::MAX
            || p.no_stake + amount > u64::MAX || p.total_stake + amount > u64::MAX
    }
}

/// The market once a bet of `amount` buying `shares` on `outcome` is recorded.
pub open spec fn market_after_bet(m: Market, outcome: bool, amount: u64, shares: u64) -> Market {
    Market {
        yes_pool: if outcome { (m.yes_pool + amount) as u64 } else { m.yes_pool },
        no_pool: if outcome { m.no_pool } else { (m.no_pool + amount) as u64 },
        total_volume: (m.total_volume + amount) as u64,
        total_yes_shares: if outcome {
            (m.total_yes_shares + shares) as u64
        } else {
            m.total_yes_shares
        },
        total_no_shares: if outcome {
            m.total_no_shares
        } else {
            (m.total_no_shares + shares) as u64
        },
        virtual_yes_reserve: if !m.amm_enabled {
            m.virtual_yes_reserve
        } else if outcome {
            (m.virtual_yes_reserve + amount) as u64
        } else {
            (m.virtual_yes_reserve - shares) as u64
        },
        virtual_no_reserve: if !m.amm_enabled {
            m.virtual_no_reserve
        } else if outcome {
            (m.virtual_no_reserve - shares) as u64
        } else {
            (m.virtual_no_reserve + amount) as u64
        },
        ..m
    }
}

/// The bettor's position once the same bet is recorded.
pub open spec fn position_after_bet(
    p: Position,
    market_key: Pubkey,
    user: Pubkey,
    outcome: bool,
    amount: u64,
    shares: u64,
) -> Position {
    Position {
        market: market_key,
        user,
        yes_stake: if outcome { (p.yes_stake + amount) as u64 } else { p.yes_stake },
        no_stake: if outcome { p.no_stake } else { (p.no_stake + amount) as u64 },
        total_stake: (p.total_stake + amount) as u64,
        yes_shares: if outcome { (p.yes_shares + shares) as u64 } else { p.yes_shares },
        no_shares: if outcome { p.no_shares } else { (p.no_shares + shares) as u64 },
        ..p
    }
}

/// A bet: refused unless the market is open, the deadline has not come and
/// the stake reaches the minimum; otherwise it buys shares and, when every
/// counter still fits, yields the market, the position and the share count.
pub open spec fn bet_step(
    m: Market,
    p: Position,
    market_key: Pubkey,
    user: Pubkey,
    now: i64,
    outcome: bool,
    amount: u64,
) -> Result<(Market, Position, u64), ErrorCode> {
    if m.status != MarketStatus::Open {
        Err(ErrorCode::MarketClosed)
    } else if now >= m.resolution_time {
        Err(ErrorCode::MarketExpired)
    } else if amount < m.min_stake {
        Err(ErrorCode::StakeTooLow)
    } else {
        match bet_shares(m, outcome, amount) {
            Err(e) => Err(e),
            Ok(shares) => if bet_overflows(m, p, outcome, amount, shares) {
                Err(ErrorCode::MathOverflow)
            } else {
                Ok(
                    (
                        market_after_bet(m, outcome, amount, shares),
                        position_after_bet(p, market_key, user, outcome, amount, shares),
                        shares,
                    ),
                )
            },
        }
    }
}

/// Resolution: only the creator, only while open, only once the deadline has
/// come; it records the winner and the time.
pub open spec fn resolve_step(m: Market, authority: Pubkey, now: i64, outcome: bool) -> Result<
    Market,
    ErrorCode,
> {
    if authority@ != m.creator@ {
        Err(ErrorCode::Unauthorized)
    } else if m.status != MarketStatus::Open {
        Err(ErrorCode::MarketAlreadyResolved)
    } else if now < m.resolution_time {
        Err(ErrorCode::MarketNotExpired)
    } else {
        Ok(
            Market {
                status: MarketStatus::Resolved,
                resolved_at: now,
                winning_outcome: Some(outcome),
                ..m
            },
        )
    }
}

/// The shares a position holds on side `side`.
pub open spec fn shares_on(p: Position, side: bool) -> u64 {
    if side { p.yes_shares } else { p.no_shares }
}

/// The shares the market issued on side `side`.
pub open spec fn total_shares_on(m: Market, side: bool) -> u64 {
    if side { m.total_yes_shares } else { m.total_no_shares }
}

/// The pooled stake of both sides, in exact arithmetic.
pub open spec fn total_pool(m: Market) -> int {
    m.yes_pool + m.no_pool
}

/// A winner's share of the pool, rounded down.
pub open spec fn pro_rata(shares: int, pool: int, total_shares: int) -> int {
    shares * pool / total_shares
}

/// A claim: the market must be resolved, the caller must own the position,
/// which must not have been paid, and must hold winning shares; the payout is
/// the position's winning shares times the whole pool over all winning shares.
pub open spec fn claim_step(m: Market, p: Position, caller: Pubkey) -> Result<u64, ErrorCode> {
    if m.status != MarketStatus::Resolved {
        Err(ErrorCode::MarketNotResolved)
    } else if p.user@ != caller@ {
        Err(ErrorCode::Unauthorized)
    } else if p.claimed {
        Err(ErrorCode::AlreadyClaimed)
    } else {
        match m.winning_outcome {
            None => Err(ErrorCode::NoWinningOutcome),
            Some(side) => if shares_on(p, side) == 0 {
                Err(ErrorCode::NoWinningStake)
            } else if total_pool(m) > u64::MAX {
                Err(ErrorCode::MathOverflow)
            } else if total_shares_on(m, side) == 0 {
                Err(ErrorCode::NoWinningStake)
            } else if pro_rata(
                shares_on(p, side) as int,
                total_pool(m),
                total_shares_on(m, side) as int,
            ) > u64::MAX {
                Err(ErrorCode::MathOverflow)
            } else {
                Ok(
                    pro_rata(
                        shares_on(p, side) as int,
                        total_pool(m),
                        total_shares_on(m, side) as int,
                    ) as u64,
                )
            },
        }
    }
}

// ---------------------------------------------------------------------------
// Instruction contexts: the accounts each operation reads and writes.
// ---------------------------------------------------------------------------

/// Accounts read when a market is opened.
pub struct CreateMarket {
    /// Address under which the new market is stored.
    pub market_key: Pubkey,
    pub creator: Pubkey,
    pub market_vault: Pubkey,
}

/// Accounts read and written by a bet.
pub struct PlaceBet {
    pub market_key: Pubkey,
    pub market: Market,
    /// The bettor's position; all zero before their first bet.
    pub position: Position,
    pub user: Pubkey,
    pub user_token_account: Pubkey,
    pub market_vault: Pubkey,
}

/// Accounts read and written by a resolution.
pub struct ResolveMarket {
    pub market_key: Pubkey,
    pub market: Market,
    pub authority: Pubkey,
}

/// Accounts read and written by a claim.
pub struct ClaimWinnings {
    pub market_key: Pubkey,
    pub market: Market,
    pub position: Position,
    pub user: Pubkey,
    pub user_token_account: Pubkey,
    pub market_vault: Pubkey,
}

/// The market whose prices are asked for.
pub struct GetPrices {
    pub market: Market,
}

// ---------------------------------------------------------------------------
// Notifications, one per successful operation.
// ---------------------------------------------------------------------------

/// Sent when a market is opened.
#[derive(Clone, Debug)]
pub struct MarketCreated {
    pub market_key: Pubkey,
    pub creator: Pubkey,
    pub model: Pubkey,
    pub question: String,
    pub virtual_liquidity: u64,
    pub timestamp: i64,
}

/// Sent when a bet is recorded, with the prices after it.
#[derive(Clone, Copy, Debug)]
pub struct BetPlaced {
    pub market_key: Pubkey,
    pub user: Pubkey,
    pub outcome: bool,
    pub amount: u64,
    pub shares: u64,
    pub yes_price: u64,
    pub no_price: u64,
    pub timestamp: i64,
}

/// Sent when a market is resolved.
#[derive(Clone, Copy, Debug)]
pub struct MarketResolved {
    pub market_key: Pubkey,
    pub winning_outcome: bool,
    pub yes_pool: u64,
    pub no_pool: u64,
    pub total_yes_shares: u64,
    pub total_no_shares: u64,
    pub timestamp: i64,
}

/// Sent when a winner has been paid.
#[derive(Clone, Copy, Debug)]
pub struct WinningsClaimed {
    pub market_key: Pubkey,
    pub user: Pubkey,
    pub shares: u64,
    pub payout: u64,
    pub timestamp: i64,
}

// ---------------------------------------------------------------------------
// Plans: what an accepted bet or claim will write once its transfer is done.
// ---------------------------------------------------------------------------

/// An accepted bet: the stake to move into the market's vault, and the
/// counters to write once it has arrived.
#[derive(Clone, Copy, Debug)]
pub struct BetPlan {
    pub transfer: Transfer,
    pub outcome: bool,
    pub amount: u64,
    pub shares: u64,
    pub timestamp: i64,
    pub yes_pool: u64,
    pub no_pool: u64,
    pub total_volume: u64,
    pub virtual_yes_reserve: u64,
    pub virtual_no_reserve: u64,
    pub total_yes_shares: u64,
    pub total_no_shares: u64,
    pub yes_stake: u64,
    pub no_stake: u64,
    pub total_stake: u64,
    pub yes_shares: u64,
    pub no_shares: u64,
}

/// The market as a bet plan writes it.
pub open spec fn market_with_plan(m: Market, plan: BetPlan) -> Market {
    Market {
        yes_pool: plan.yes_pool,
        no_pool: plan.no_pool,
        total_volume: plan.total_volume,
        virtual_yes_reserve: plan.virtual_yes_reserve,
        virtual_no_reserve: plan.virtual_no_reserve,
        total_yes_shares: plan.total_yes_shares,
        total_no_shares: plan.total_no_shares,
        ..m
    }
}

/// The position as a bet plan writes it.
pub open spec fn position_with_plan(
    p: Position,
    market_key: Pubkey,
    user: Pubkey,
    plan: BetPlan,
) -> Position {
    Position {
        market: market_key,
        user,
        yes_stake: plan.yes_stake,
        no_stake: plan.no_stake,
        total_stake: plan.total_stake,
        yes_shares: plan.yes_shares,
        no_shares: plan.no_shares,
        ..p
    }
}

/// An accepted claim: the payout to move out of the market's vault, after
/// which the position is marked as paid.
#[derive(Clone, Copy, Debug)]
pub struct ClaimPlan {
    pub transfer: Transfer,
    pub shares: u64,
    pub payout: u64,
}

// ---------------------------------------------------------------------------
// Operations.
// ---------------------------------------------------------------------------

/// Checks a bet and prices it. On success nothing is written yet: the caller
/// moves the stake as the plan's transfer says and then calls `settle_bet`.
pub fn place_bet(ctx: &PlaceBet, now: i64, outcome: bool, amount: u64) -> (r: Result<
    BetPlan,
    ErrorCode,
>)
    ensures
        match r {
            Ok(plan) => {
                &&& bet_step(ctx.market, ctx.position, ctx.market_key, ctx.user, now, outcome, amount)
                    == Ok::<(Market, Position, u64), ErrorCode>(
                    (
                        market_with_plan(ctx.market, plan),
                        position_with_plan(ctx.position, ctx.market_key, ctx.user, plan),
                        plan.shares,
                    ),
                )
                &&& plan.transfer == (Transfer {
                    from: ctx.user_token_account,
                    to: ctx.market_vault,
                    authority: ctx.user,
                    amount,
                })
                &&& plan.outcome == outcome
                &&& plan.amount == amount
                &&& plan.timestamp == now
            },
            Err(e) => bet_step(
                ctx.market,
                ctx.position,
                ctx.market_key,
                ctx.user,
                now,
                outcome,
                amount,
            ) == Err::<(Market, Position, u64), ErrorCode>(e),
        },
{
    let market = &ctx.market;
    let position = &ctx.position;
    if market.status != MarketStatus::Open {
        return Err(ErrorCode::MarketClosed);
    }
    if now >= market.resolution_time {
        return Err(ErrorCode::MarketExpired);
    }
    if amount < market.min_stake {
        return Err(ErrorCode::StakeTooLow);
    }
    let shares = if market.amm_enabled {
        match calculate_shares_out(market, outcome, amount) {
            Ok(s) => s,
            Err(e) => return Err(e),
        }
    } else {
        amount
    };
    let (side_pool, side_total_shares, side_user_shares, side_user_stake) = if outcome {
        (market.yes_pool, market.total_yes_shares, position.yes_shares, position.yes_stake)
    } else {
        (market.no_pool, market.total_no_shares, position.no_shares, position.no_stake)
    };
    let overflow = side_pool.checked_add(amount).is_none()
        || side_total_shares.checked_add(shares).is_none()
        || market.total_volume.checked_add(amount).is_none()
        || side_user_shares.checked_add(shares).is_none()
        || side_user_stake.checked_add(amount).is_none()
        || position.total_stake.checked_add(amount).is_none();
    if overflow {
        return Err(ErrorCode::MathOverflow);
    }
    let (virtual_yes_reserve, virtual_no_reserve) = if !market.amm_enabled {
        (market.virtual_yes_reserve, market.virtual_no_reserve)
    } else if outcome {
        (market.virtual_yes_reserve + amount, market.virtual_no_reserve - shares)
    } else {
        (market.virtual_yes_reserve - shares, market.virtual_no_reserve + amount)
    };
    let plan = BetPlan {
        transfer: Transfer {
            from: ctx.user_token_account,
            to: ctx.market_vault,
            authority: ctx.user,
            amount,
        },
        outcome,
        amount,
        shares,
        timestamp: now,
        yes_pool: if outcome { market.yes_pool + amount } else { market.yes_pool },
        no_pool: if outcome { market.no_pool } else { market.no_pool + amount },
        total_volume: market.total_volume + amount,
        virtual_yes_reserve,
        virtual_no_reserve,
        total_yes_shares: if outcome { market.total_yes_shares + shares } else { market.total_yes_shares },
        total_no_shares: if outcome { market.total_no_shares } else { market.total_no_shares + shares },
        yes_stake: if outcome { position.yes_stake + amount } else { position.yes_stake },
        no_stake: if outcome { position.no_stake } else { position.no_stake + amount },
        total_stake: position.total_stake + amount,
        yes_shares: if outcome { position.yes_shares + shares } else { position.yes_shares },
        no_shares: if outcome { position.no_shares } else { position.no_shares + shares },
    };
    Ok(plan)
}

/// Records a bet whose stake has reached the vault: writes the plan's
/// counters into the market and the position, and reports the new prices.
pub fn settle_bet(ctx: &mut PlaceBet, plan: &BetPlan) -> (ev: BetPlaced)
    ensures
        final(ctx).market == market_with_plan(old(ctx).market, *plan),
        final(ctx).position == position_with_plan(
            old(ctx).position,
            old(ctx).market_key,
            old(ctx).user,
            *plan,
        ),
        final(ctx).market_key == old(ctx).market_key,
        final(ctx).user == old(ctx).user,
        final(ctx).user_token_account == old(ctx).user_token_account,
        final(ctx).market_vault == old(ctx).market_vault,
        ev == (BetPlaced {
            market_key: old(ctx).market_key,
            user: old(ctx).user,
            outcome: plan.outcome,
            amount: plan.amount,
            shares: plan.shares,
            yes_price: price_of(plan.virtual_yes_reserve, plan.virtual_no_reserve),
            no_price: price_of(plan.virtual_no_reserve, plan.virtual_yes_reserve),
            timestamp: plan.timestamp,
        }),
{
    ctx.market.yes_pool = plan.yes_pool;
    ctx.market.no_pool = plan.no_pool;
    ctx.market.total_volume = plan.total_volume;
    ctx.market.virtual_yes_reserve = plan.virtual_yes_reserve;
    ctx.market.virtual_no_reserve = plan.virtual_no_reserve;
    ctx.market.total_yes_shares = plan.total_yes_shares;
    ctx.market.total_no_shares = plan.total_no_shares;
    ctx.position.market = ctx.market_key;
    ctx.position.user = ctx.user;
    ctx.position.yes_stake = plan.yes_stake;
    ctx.position.no_stake = plan.no_stake;
    ctx.position.total_stake = plan.total_stake;
    ctx.position.yes_shares = plan.yes_shares;
    ctx.position.no_shares = plan.no_shares;
    BetPlaced {
        market_key: ctx.market_key,
        user: ctx.user,
        outcome: plan.outcome,
        amount: plan.amount,
        shares: plan.shares,
        yes_price: get_yes_price(&ctx.market),
        no_price: get_no_price(&ctx.market),
        timestamp: plan.timestamp,
    }
}

/// Opens a market on `model_pubkey` that can be resolved from
/// `resolution_time` on, its curve seeded with `virtual_liquidity` on each side.
pub fn create_market(
    ctx: &CreateMarket,
    now: i64,
    model_pubkey: Pubkey,
    question: String,
    resolution_time: i64,
    min_stake: u64,
    virtual_liquidity: u64,
) -> (r: Result<(Market, MarketCreated), ErrorCode>)
    ensures
        match r {
            Ok((market, ev)) => {
                &&& create_step(
                    ctx.creator,
                    now,
                    model_pubkey,
                    question,
                    resolution_time,
                    min_stake,
                    virtual_liquidity,
                ) == Ok::<Market, ErrorCode>(market)
                &&& ev == (MarketCreated {
                    market_key: ctx.market_key,
                    creator: ctx.creator,
                    model: model_pubkey,
                    question,
                    virtual_liquidity,
                    timestamp: now,
                })
            },
            Err(e) => create_step(
                ctx.creator,
                now,
                model_pubkey,
                question,
                resolution_time,
                min_stake,
                virtual_liquidity,
            ) == Err::<Market, ErrorCode>(e),
        },
{
    if resolution_time <= now {
        return Err(ErrorCode::InvalidResolutionTime);
    }
    if virtual_liquidity == 0 {
        return Err(ErrorCode::InvalidLiquidity);
    }
    let k_constant = match virtual_liquidity.checked_mul(virtual_liquidity) {
        Some(k) => k,
        None => return Err(ErrorCode::MathOverflow),
    };
    let ev = MarketCreated {
        market_key: ctx.market_key,
        creator: ctx.creator,
        model: model_pubkey,
        question: question.clone(),
        virtual_liquidity,
        timestamp: now,
    };
    let market = Market {
        creator: ctx.creator,
        model: model_pubkey,
        question,
        yes_pool: 0,
        no_pool: 0,
        total_volume: 0,
        status: MarketStatus::Open,
        resolution_time,
        resolved_at: 0,
        winning_outcome: None,
        min_stake,
        created_at: now,
        amm_enabled: true,
        virtual_yes_reserve: virtual_liquidity,
        virtual_no_reserve: virtual_liquidity,
        k_constant,
        total_yes_shares: 0,
        total_no_shares: 0,
    };
    Ok((market, ev))
}

/// Settles the market on `outcome`. On any refusal the market is untouched.
pub fn resolve_market(ctx: &mut ResolveMarket, now: i64, outcome: bool) -> (r: Result<
    MarketResolved,
    ErrorCode,
>)
    ensures
        final(ctx).market_key == old(ctx).market_key,
        final(ctx).authority == old(ctx).authority,
        match r {
            Ok(ev) => {
                &&& resolve_step(old(ctx).market, old(ctx).authority, now, outcome)
                    == Ok::<Market, ErrorCode>(final(ctx).market)
                &&& ev == (MarketResolved {
                    market_key: old(ctx).market_key,
                    winning_outcome: outcome,
                    yes_pool: old(ctx).market.yes_pool,
                    no_pool: old(ctx).market.no_pool,
                    total_yes_shares: old(ctx).market.total_yes_shares,
                    total_no_shares: old(ctx).market.total_no_shares,
                    timestamp: now,
                })
            },
            Err(e) => {
                &&& resolve_step(old(ctx).market, old(ctx).authority, now, outcome)
                    == Err::<Market, ErrorCode>(e)
                &&& final(ctx).market == old(ctx).market
            },
        },
{
    if ctx.authority != ctx.market.creator {
        return Err(ErrorCode::Unauthorized);
    }
    if ctx.market.status != MarketStatus::Open {
        return Err(ErrorCode::MarketAlreadyResolved);
    }
    if now < ctx.market.resolution_time {
        return Err(ErrorCode::MarketNotExpired);
    }
    ctx.market.status = MarketStatus::Resolved;
    ctx.market.resolved_at = now;
    ctx.market.winning_outcome = Some(outcome);
    Ok(
        MarketResolved {
            market_key: ctx.market_key,
            winning_outcome: outcome,
            yes_pool: ctx.market.yes_pool,
            no_pool: ctx.market.no_pool,
            total_yes_shares: ctx.market.total_yes_shares,
            total_no_shares: ctx.market.total_no_shares,
            timestamp: now,
        },
    )
}

/// Checks a claim and computes its payout. On success nothing is written yet:
/// the caller pays out as the plan's transfer says and then calls
/// `settle_claim`.
pub fn claim_winnings(ctx: &ClaimWinnings) -> (r: Result<ClaimPlan, ErrorCode>)
    ensures
        match r {
            Ok(plan) => {
                &&& claim_step(ctx.market, ctx.position, ctx.user) == Ok::<u64, ErrorCode>(
                    plan.payout,
                )
                &&& ctx.market.winning_outcome matches Some(side)
                &&& plan.shares == shares_on(ctx.position, side)
                &&& plan.transfer == (Transfer {
                    from: ctx.market_vault,
                    to: ctx.user_token_account,
                    authority: ctx.market_key,
                    amount: plan.payout,
                })
            },
            Err(e) => claim_step(ctx.market, ctx.position, ctx.user) == Err::<u64, ErrorCode>(e),
        },
{
    let market = &ctx.market;
    let position = &ctx.position;
    if market.status != MarketStatus::Resolved {
        return Err(ErrorCode::MarketNotResolved);
    }
    if position.user != ctx.user {
        return Err(ErrorCode::Unauthorized);
    }
    if position.claimed {
        return Err(ErrorCode::AlreadyClaimed);
    }
    let side = match market.winning_outcome {
        Some(w) => w,
        None => return Err(ErrorCode::NoWinningOutcome),
    };
    let user_winning_shares = if side { position.yes_shares } else { position.no_shares };
    if user_winning_shares == 0 {
        return Err(ErrorCode::NoWinningStake);
    }
    let total_pool = match market.yes_pool.checked_add(market.no_pool) {
        Some(t) => t,
        None => return Err(ErrorCode::MathOverflow),
    };
    let total_winning_shares = if side {
        market.total_yes_shares
    } else {
        market.total_no_shares
    };
    if total_winning_shares == 0 {
        return Err(ErrorCode::NoWinningStake);
    }
    proof {
        assert(user_winning_shares * total_pool <= u64::MAX * u64::MAX) by (nonlinear_arith)
            requires
                user_winning_shares <= u64::MAX,
                total_pool <= u64::MAX,
        ;
    }
    let wide = user_winning_shares as u128 * total_pool as u128;
    let payout = wide / total_winning_shares as u128;
    if payout > u64::MAX as u128 {
        return Err(ErrorCode::MathOverflow);
    }
    Ok(
        ClaimPlan {
            transfer: Transfer {
                from: ctx.market_vault,
                to: ctx.user_token_account,
                authority: ctx.market_key,
                amount: payout as u64,
            },
            shares: user_winning_shares,
            payout: payout as u64,
        },
    )
}

/// Marks a position as paid once its payout has left the vault.
pub fn settle_claim(ctx: &mut ClaimWinnings, plan: &ClaimPlan, now: i64) -> (ev: WinningsClaimed)
    ensures
        final(ctx).position == (Position { claimed: true, ..old(ctx).position }),
        final(ctx).market == old(ctx).market,
        final(ctx).market_key == old(ctx).market_key,
        final(ctx).user == old(ctx).user,
        final(ctx).user_token_account == old(ctx).user_token_account,
        final(ctx).market_vault == old(ctx).market_vault,
        ev == (WinningsClaimed {
            market_key: old(ctx).market_key,
            user: old(ctx).user,
            shares: plan.shares,
            payout: plan.payout,
            timestamp: now,
        }),
{
    ctx.position.claimed = true;
    WinningsClaimed {
        market_key: ctx.market_key,
        user: ctx.user,
        shares: plan.shares,
        payout: plan.payout,
        timestamp: now,
    }
}

/// Current prices of YES and NO, in basis points.
pub fn get_prices(ctx: &GetPrices) -> (r: Result<(u64, u64), ErrorCode>)
    ensures
        r == Ok::<(u64, u64), ErrorCode>(
            (
                price_of(ctx.market.virtual_yes_reserve, ctx.market.virtual_no_reserve),
                price_of(ctx.market.virtual_no_reserve, ctx.market.virtual_yes_reserve),
            ),
        ),
{
    Ok((get_yes_price(&ctx.market), get_no_price(&ctx.market)))
}

} // verus!
