use vstd::prelude::*;

use crate::accounts::Pubkey;

verus! {

/// Where a market stands in its life: it only ever moves forward, from `Open`
/// to one of the two terminal states.
#[derive(Clone, Copy, Debug, PartialEq, Eq, Structural)]
pub enum MarketStatus {
    Open,
    Resolved,
    Cancelled,
}

/// Why a market operation was refused.
#[derive(Clone, Copy, Debug, PartialEq, Eq, Structural)]
pub enum ErrorCode {
    Unauthorized,
    MarketClosed,
    MarketExpired,
    MarketNotResolved,
    MarketAlreadyResolved,
    MarketNotExpired,
    InvalidResolutionTime,
    StakeTooLow,
    AlreadyClaimed,
    NoWinningOutcome,
    NoWinningStake,
    MathOverflow,
    InsufficientLiquidity,
    InvalidLiquidity,
}

/// The broad family an error belongs to.
#[derive(Clone, Copy, Debug, PartialEq, Eq, Structural)]
pub enum ErrorClass {
    /// The caller is not the account allowed to act.
    Authorization,
    /// The market is in the wrong state, or the time is outside the window.
    Lifecycle,
    /// An argument or a holding is out of the accepted range.
    Validation,
    /// A computation would overflow, divide by zero, or drain the curve.
    Arithmetic,
    /// The one-time action was already performed.
    AlreadyDone,
}

pub open spec fn error_class(e: ErrorCode) -> ErrorClass {
    match e {
        ErrorCode::Unauthorized => ErrorClass::Authorization,
        ErrorCode::MarketClosed | ErrorCode::MarketExpired | ErrorCode::MarketNotResolved
        | ErrorCode::MarketAlreadyResolved | ErrorCode::MarketNotExpired
        | ErrorCode::NoWinningOutcome => ErrorClass::Lifecycle,
        ErrorCode::InvalidResolutionTime | ErrorCode::StakeTooLow | ErrorCode::NoWinningStake
        | ErrorCode::InvalidLiquidity => ErrorClass::Validation,
        ErrorCode::MathOverflow | ErrorCode::InsufficientLiquidity => ErrorClass::Arithmetic,
        ErrorCode::AlreadyClaimed => ErrorClass::AlreadyDone,
    }
}

impl ErrorCode {
    pub fn class(&self) -> (r: ErrorClass)
        ensures
            r == error_class(*self),
    {
        match self {
            ErrorCode::Unauthorized => ErrorClass::Authorization,
            ErrorCode::MarketClosed | ErrorCode::MarketExpired | ErrorCode::MarketNotResolved
            | ErrorCode::MarketAlreadyResolved | ErrorCode::MarketNotExpired
            | ErrorCode::NoWinningOutcome => ErrorClass::Lifecycle,
            ErrorCode::InvalidResolutionTime | ErrorCode::StakeTooLow
            | ErrorCode::NoWinningStake | ErrorCode::InvalidLiquidity => ErrorClass::Validation,
            ErrorCode::MathOverflow | ErrorCode::InsufficientLiquidity => ErrorClass::Arithmetic,
            ErrorCode::AlreadyClaimed => ErrorClass::AlreadyDone,
        }
    }
}

/// A binary market on a claim about a model, with its real pools and the
/// virtual reserves of its constant-product curve.
#[derive(Clone, Debug)]
pub struct Market {
    pub creator: Pubkey,
    pub model: Pubkey,
    pub question: String,
    /// Real stake placed on YES, summed over all bets.
    pub yes_pool: u64,
    /// Real stake placed on NO, summed over all bets.
    pub no_pool: u64,
    pub total_volume: u64,
    pub status: MarketStatus,
    pub resolution_time: i64,
    pub resolved_at: i64,
    pub winning_outcome: Option<bool>,
    pub min_stake: u64,
    pub created_at: i64,
    pub amm_enabled: bool,
    pub virtual_yes_reserve: u64,
    pub virtual_no_reserve: u64,
    /// The product of the two reserves when the market was created.
    pub k_constant: u64,
    pub total_yes_shares: u64,
    pub total_no_shares: u64,
}

/// One user's holding in one market.
#[derive(Clone, Copy, Debug)]
pub struct Position {
    pub market: Pubkey,
    pub user: Pubkey,
    pub yes_stake: u64,
    pub no_stake: u64,
    pub total_stake: u64,
    pub yes_shares: u64,
    pub no_shares: u64,
    pub claimed: bool,
}

impl Position {
    /// The holding a user has before their first bet in a market.
    pub fn empty(market: Pubkey, user: Pubkey) -> (r: Position)
        ensures
            r.market == market,
            r.user == user,
            r.yes_stake == 0,
            r.no_stake == 0,
            r.total_stake == 0,
            r.yes_shares == 0,
            r.no_shares == 0,
            !r.claimed,
    {
        Position {
            market,
            user,
            yes_stake: 0,
            no_stake: 0,
            total_stake: 0,
            yes_shares: 0,
            no_shares: 0,
            claimed: false,
        }
    }
}

} // verus!
