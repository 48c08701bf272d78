use vstd::prelude::*;

verus! {

/// Administrator allowed to change fee configurations.
pub const ADMIN: [u8; 32] = [
    158, 72, 93, 140, 47, 166, 7, 179, 95, 186, 127, 5, 39, 218, 141, 136,
    219, 167, 76, 56, 183, 8, 178, 133, 55, 72, 186, 34, 37, 150, 238, 192,
];

/// Program id of the index-token (Infinix) program.
pub const INFINIX_PROGRAM_ID: [u8; 32] = [
    185, 5, 64, 90, 129, 199, 79, 60, 95, 193, 158, 239, 149, 137, 34, 92,
    227, 147, 75, 85, 179, 74, 136, 175, 147, 146, 238, 114, 158, 52, 37, 151,
];

/// Program id of the rewards program.
pub const REWARDS_PROGRAM_ID: [u8; 32] = [
    93, 44, 153, 178, 79, 116, 208, 116, 136, 6, 252, 101, 214, 143, 69, 170,
    91, 213, 212, 118, 219, 48, 135, 140, 174, 158, 117, 123, 96, 78, 9, 18,
];

/// Program id of the SPL governance program (unset on this deployment).
pub const SPL_GOVERNANCE_PROGRAM_ID: [u8; 32] = [
    0, 0, 0, 0, 0, 0, 0, 0, 0, 0, 0, 0, 0, 0, 0, 0,
    0, 0, 0, 0, 0, 0, 0, 0, 0, 0, 0, 0, 0, 0, 0, 0,
];

pub const D9_U128: u128 = 1_000_000_000;
pub const D18_U128: u128 = 1_000_000_000_000_000_000;
/// Largest DAO fee numerator, scaled by 1e18 (50%).
pub const MAX_DAO_FEE: u128 = 500_000_000_000_000_000;
/// Largest fee floor, scaled by 1e18 (0.15%).
pub const MAX_FEE_FLOOR: u128 = 1_500_000_000_000_000;
pub const FEE_DENOMINATOR: u128 = 1_000_000_000_000_000_000;
pub const MAX_TVL_FEE: u128 = 100_000_000_000_000_000;
pub const DAY_IN_SECONDS: u64 = 86400;
pub const YEAR_IN_SECONDS: u64 = 31_536_000;
pub const MAX_MINT_FEE: u128 = 50_000_000_000_000_000;
pub const MIN_AUCTION_LENGTH: u64 = 60;
pub const MAX_AUCTION_LENGTH: u64 = 604800;
pub const MAX_TTL: u64 = 2_419_200;
pub const MAX_RATE: u128 = 1_000_000_000_000_000_000_000_000_000;
pub const MAX_PRICE_RANGE: u128 = 1_000_000_000;
pub const MAX_TOKEN_PRICE_RANGE: u128 = 100;
pub const MAX_TOKEN_PRICE: u128 = 1_000_000_000_000_000_000_000_000_000_000_000_000;
pub const RESTRICTED_AUCTION_BUFFER: u64 = 0;
pub const MAX_FEE_RECIPIENTS: usize = 64;
pub const MAX_FEE_RECIPIENTS_PORTION: u128 = 1_000_000_000_000_000_000;
pub const MAX_INFINIX_TOKEN_AMOUNT: usize = 100;
pub const MAX_USER_PENDING_BASKET_TOKEN_AMOUNTS: usize = 110;
pub const MAX_REBALANCE_DETAILS_TOKENS: usize = 30;
pub const MAX_CONCURRENT_AUCTIONS: usize = 16;
pub const MAX_REWARD_TOKENS: usize = 4;
pub const MAX_REWARD_HALF_LIFE: u64 = 1_209_600;
pub const MIN_REWARD_HALF_LIFE: u64 = 604800;
pub const LN_2: u128 = 693_147_180_559_945_309;

/// Which kind of pending basket a user holds.
#[derive(Debug, Clone, Copy, PartialEq, Eq, Structural)]
pub enum PendingBasketType {
    MintProcess,
    RedeemProcess,
}

} // verus!
