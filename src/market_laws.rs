use vstd::prelude::*;

use crate::accounts::Pubkey;
use crate::market::{ErrorCode, Market, MarketStatus, Position};
use crate::prediction_market::{
    bet_step, claim_step, create_step, pro_rata, shares_on, total_pool, total_shares_on,
};

verus! {

/// A market's reserves lie on or under its curve.
pub open spec fn under_curve(m: Market) -> bool {
    m.virtual_yes_reserve * m.virtual_no_reserve <= m.k_constant
}

/// A fresh market sits exactly on its curve: the product of its reserves is
/// its constant.
pub proof fn lemma_created_on_curve(
    creator: Pubkey,
    now: i64,
    model: Pubkey,
    question: String,
    resolution_time: i64,
    min_stake: u64,
    virtual_liquidity: u64,
)
    requires
        create_step(creator, now, model, question, resolution_time, min_stake, virtual_liquidity) is Ok,
    ensures
        ({
            let m = create_step(
                creator,
                now,
                model,
                question,
                resolution_time,
                min_stake,
                virtual_liquidity,
            )->Ok_0;
            m.virtual_yes_reserve * m.virtual_no_reserve == m.k_constant
        }),
{
}

/// After any successful bet the product of the reserves does not exceed the
/// curve constant, which the bet leaves as it was. A curve-priced bet lands
/// under the curve whatever the reserves were; a market without a curve keeps
/// its reserves, so there the product was under the curve before.
pub proof fn lemma_bet_stays_under_curve(
    m: Market,
    p: Position,
    market_key: Pubkey,
    user: Pubkey,
    now: i64,
    outcome: bool,
    amount: u64,
)
    requires
        m.amm_enabled || under_curve(m),
        bet_step(m, p, market_key, user, now, outcome, amount) is Ok,
    ensures
        ({
            let next = bet_step(m, p, market_key, user, now, outcome, amount)->Ok_0.0;
            &&& under_curve(next)
            &&& next.k_constant == m.k_constant
        }),
{
    if m.amm_enabled {
        let k = m.k_constant as int;
        let grown = if outcome {
            m.virtual_yes_reserve + amount
        } else {
            m.virtual_no_reserve + amount
        };
        assert(grown * (k / grown) <= k) by (nonlinear_arith)
            requires
                grown > 0,
                k >= 0,
        ;
        let next = bet_step(m, p, market_key, user, now, outcome, amount)->Ok_0.0;
        if outcome {
            assert(next.virtual_yes_reserve == grown);
            assert(next.virtual_no_reserve == k / grown);
        } else {
            assert(next.virtual_no_reserve == grown);
            assert(next.virtual_yes_reserve == k / grown);
        }
        let (x, y) = (next.virtual_yes_reserve as int, next.virtual_no_reserve as int);
        assert(x * y <= k) by (nonlinear_arith)
            requires
                (x == grown && y == k / grown) || (y == grown && x == k / grown),
                grown * (k / grown) <= k,
        ;
    }
}

/// Over its open life a market's pools, volume and issued shares only grow:
/// a successful bet never lowers any of them.
pub proof fn lemma_bet_monotone(
    m: Market,
    p: Position,
    market_key: Pubkey,
    user: Pubkey,
    now: i64,
    outcome: bool,
    amount: u64,
)
    requires
        bet_step(m, p, market_key, user, now, outcome, amount) is Ok,
    ensures
        ({
            let next = bet_step(m, p, market_key, user, now, outcome, amount)->Ok_0.0;
            &&& next.total_volume >= m.total_volume
            &&& next.yes_pool >= m.yes_pool
            &&& next.no_pool >= m.no_pool
            &&& next.total_yes_shares >= m.total_yes_shares
            &&& next.total_no_shares >= m.total_no_shares
            &&& next.status == m.status
            &&& next.resolution_time == m.resolution_time
        }),
{
}

/// A bet issues to the bettor's position exactly the shares it adds to the
/// market's total on each side, so the positions of a market never hold more
/// shares than the market has issued.
pub proof fn lemma_bet_issues_shares_to_position(
    m: Market,
    p: Position,
    market_key: Pubkey,
    user: Pubkey,
    now: i64,
    outcome: bool,
    amount: u64,
    side: bool,
)
    requires
        bet_step(m, p, market_key, user, now, outcome, amount) is Ok,
    ensures
        ({
            let (next, q, _) = bet_step(m, p, market_key, user, now, outcome, amount)->Ok_0;
            total_shares_on(next, side) - total_shares_on(m, side) == shares_on(q, side)
                - shares_on(p, side)
        }),
{
}

/// A position whose stake on the two sides adds up to its total keeps that
/// balance through every bet.
pub proof fn lemma_bet_keeps_stake_balanced(
    m: Market,
    p: Position,
    market_key: Pubkey,
    user: Pubkey,
    now: i64,
    outcome: bool,
    amount: u64,
)
    requires
        p.total_stake == p.yes_stake + p.no_stake,
        bet_step(m, p, market_key, user, now, outcome, amount) is Ok,
    ensures
        ({
            let q = bet_step(m, p, market_key, user, now, outcome, amount)->Ok_0.1;
            q.total_stake == q.yes_stake + q.no_stake
        }),
{
}

/// At the minimum stake the stake check passes; one unit below it the bet is
/// refused as too low, on any open market before its deadline.
pub proof fn lemma_min_stake_boundary(
    m: Market,
    p: Position,
    market_key: Pubkey,
    user: Pubkey,
    now: i64,
    outcome: bool,
)
    requires
        m.status == MarketStatus::Open,
        now < m.resolution_time,
        m.min_stake > 0,
    ensures
        bet_step(m, p, market_key, user, now, outcome, m.min_stake) != Err::<
            (Market, Position, u64),
            ErrorCode,
        >(ErrorCode::StakeTooLow),
        bet_step(m, p, market_key, user, now, outcome, (m.min_stake - 1) as u64) == Err::<
            (Market, Position, u64),
            ErrorCode,
        >(ErrorCode::StakeTooLow),
{
}

/// A claim pays at most once: once a successful claim has marked the position
/// as paid, claiming again is refused as already done.
pub proof fn lemma_claim_once(m: Market, p: Position, caller: Pubkey)
    requires
        claim_step(m, p, caller) is Ok,
    ensures
        claim_step(m, Position { claimed: true, ..p }, caller) == Err::<u64, ErrorCode>(
            ErrorCode::AlreadyClaimed,
        ),
{
}

/// What a position can claim from a market, or nothing where a claim is refused.
pub open spec fn claimable(m: Market, p: Position) -> int {
    match claim_step(m, p, p.user) {
        Ok(payout) => payout as int,
        Err(_) => 0,
    }
}

/// Sum of what each position of `ps` can claim.
pub open spec fn total_claimable(m: Market, ps: Seq<Position>) -> int
    decreases ps.len(),
{
    if ps.len() == 0 {
        0
    } else {
        total_claimable(m, ps.drop_last()) + claimable(m, ps.last())
    }
}

/// Sum of the shares the positions of `ps` hold on `side`.
pub open spec fn total_held(ps: Seq<Position>, side: bool) -> int
    decreases ps.len(),
{
    if ps.len() == 0 {
        0
    } else {
        total_held(ps.drop_last(), side) + shares_on(ps.last(), side)
    }
}

proof fn lemma_claimable_scaled(m: Market, p: Position, side: bool)
    requires
        m.winning_outcome == Some(side),
        total_shares_on(m, side) > 0,
    ensures
        0 <= claimable(m, p),
        total_shares_on(m, side) * claimable(m, p) <= shares_on(p, side) * total_pool(m),
{
    if claim_step(m, p, p.user) is Ok {
        let s = shares_on(p, side) as int;
        let pool = total_pool(m);
        let t = total_shares_on(m, side) as int;
        assert(t * pro_rata(s, pool, t) <= s * pool) by (nonlinear_arith)
            requires
                t > 0,
                s >= 0,
                pool >= 0,
                pro_rata(s, pool, t) == s * pool / t,
        ;
    }
}

proof fn lemma_total_claimable_scaled(m: Market, ps: Seq<Position>, side: bool)
    requires
        m.winning_outcome == Some(side),
        total_shares_on(m, side) > 0,
    ensures
        0 <= total_claimable(m, ps),
        0 <= total_held(ps, side),
        total_shares_on(m, side) * total_claimable(m, ps) <= total_held(ps, side) * total_pool(m),
    decreases ps.len(),
{
    if ps.len() > 0 {
        let rest = ps.drop_last();
        lemma_total_claimable_scaled(m, rest, side);
        lemma_claimable_scaled(m, ps.last(), side);
        let t = total_shares_on(m, side) as int;
        let pool = total_pool(m);
        let a = total_claimable(m, rest);
        let b = claimable(m, ps.last());
        let ha = total_held(rest, side);
        let hb = shares_on(ps.last(), side) as int;
        assert(total_claimable(m, ps) == a + b);
        assert(total_held(ps, side) == ha + hb);
        let c = total_claimable(m, ps);
        let h = total_held(ps, side);
        assert(t * c <= h * pool) by (nonlinear_arith)
            requires
                t * a <= ha * pool,
                t * b <= hb * pool,
                c == a + b,
                h == ha + hb,
        ;
    } else {
        assert(total_claimable(m, ps) == 0);
        assert(total_held(ps, side) == 0);
    }
}

/// Settlement never pays out more than was staked: when the positions of a
/// resolved market together hold no more winning shares than the market
/// issued, all they can claim adds up to at most the two pools; only the
/// rounding remainder stays behind.
pub proof fn lemma_payouts_within_pool(m: Market, ps: Seq<Position>, side: bool)
    requires
        m.status == MarketStatus::Resolved,
        m.winning_outcome == Some(side),
        total_held(ps, side) <= total_shares_on(m, side),
    ensures
        total_claimable(m, ps) <= total_pool(m),
{
    if total_shares_on(m, side) > 0 {
        lemma_total_claimable_scaled(m, ps, side);
        let t = total_shares_on(m, side) as int;
        let c = total_claimable(m, ps);
        let h = total_held(ps, side);
        let pool = total_pool(m);
        assert(c <= pool) by (nonlinear_arith)
            requires
                t > 0,
                t * c <= h * pool,
                h <= t,
                pool >= 0,
                h >= 0,
        ;
    } else {
        lemma_nothing_claimable(m, ps, side);
    }
}

proof fn lemma_nothing_claimable(m: Market, ps: Seq<Position>, side: bool)
    requires
        m.winning_outcome == Some(side),
        total_shares_on(m, side) == 0,
    ensures
        total_claimable(m, ps) == 0,
    decreases ps.len(),
{
    if ps.len() > 0 {
        lemma_nothing_claimable(m, ps.drop_last(), side);
    }
}

} // verus!
