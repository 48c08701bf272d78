use vstd::prelude::*;
use crate::bytes::{keys_equal, le_u64_at, read_le_u64};
use crate::constants::{ADMIN, MAX_DAO_FEE, MAX_FEE_FLOOR};
use crate::errors::ErrorCode;
use crate::infinix_program::{
    distribute_fees_cpi, is_distribution_plan, next_index_fits,
    DistributeFeesAccounts, InstructionPlan,
};

verus! {

/// DAO-wide fee defaults.
#[derive(Debug, Clone, Copy)]
pub struct DAOFeeConfig {
    pub bump: u8,
    pub fee_recipient: [u8; 32],
    pub default_fee_numerator: u128,
    pub default_fee_floor: u128,
}

impl DAOFeeConfig {
    /// Bytes an account of this kind occupies: discriminator and fields.
    pub const SIZE: usize = 73;
}

/// Fee settings of one index token.
#[derive(Debug, Clone, Copy, PartialEq, Eq, Structural)]
pub struct InfinixFeeConfig {
    pub bump: u8,
    pub fee_numerator: u128,
    pub fee_floor: u128,
}

/// Updating an existing fee config changes only what was requested: the bump
/// stays, a value that was not requested keeps its old value, and a requested
/// value is stored as given.
pub proof fn law_update_changes_only_requested(
    cfg: InfinixFeeConfig,
    disc: int,
    dao: DAOFeeConfig,
    bump: u8,
    fee_numerator: Option<u128>,
    fee_floor: Option<u128>,
)
    requires
        disc != 0,
    ensures
        fee_config_after(cfg, disc, dao, bump, fee_numerator, fee_floor).bump == cfg.bump,
        fee_numerator is None ==> fee_config_after(cfg, disc, dao, bump, fee_numerator, fee_floor).fee_numerator
            == cfg.fee_numerator,
        fee_floor is None ==> fee_config_after(cfg, disc, dao, bump, fee_numerator, fee_floor).fee_floor
            == cfg.fee_floor,
        fee_numerator matches Some(v) ==> fee_config_after(cfg, disc, dao, bump, fee_numerator, fee_floor).fee_numerator
            == v,
        fee_floor matches Some(v) ==> fee_config_after(cfg, disc, dao, bump, fee_numerator, fee_floor).fee_floor == v,
{
}

/// Initializing a fresh fee config takes the context's bump, each requested
/// value as given, and the DAO default for each value not requested, whatever
/// the account held before.
pub proof fn law_init_uses_dao_defaults(
    cfg: InfinixFeeConfig,
    dao: DAOFeeConfig,
    bump: u8,
    fee_numerator: Option<u128>,
    fee_floor: Option<u128>,
)
    ensures
        fee_config_after(cfg, 0, dao, bump, fee_numerator, fee_floor).bump == bump,
        fee_numerator is None ==> fee_config_after(cfg, 0, dao, bump, fee_numerator, fee_floor).fee_numerator
            == dao.default_fee_numerator,
        fee_floor is None ==> fee_config_after(cfg, 0, dao, bump, fee_numerator, fee_floor).fee_floor
            == dao.default_fee_floor,
        fee_numerator matches Some(v) ==> fee_config_after(cfg, 0, dao, bump, fee_numerator, fee_floor).fee_numerator
            == v,
        fee_floor matches Some(v) ==> fee_config_after(cfg, 0, dao, bump, fee_numerator, fee_floor).fee_floor == v,
{
}

impl InfinixFeeConfig {
    /// Bytes an account of this kind occupies: discriminator and fields.
    pub const SIZE: usize = 41;
}

/// Programs accepted by the registrar.
#[derive(Debug, Clone, Copy)]
pub struct ProgramRegistrar {
    pub bump: u8,
    pub accepted_programs: [[u8; 32]; 8],
}

impl ProgramRegistrar {
    /// Bytes an account of this kind occupies: discriminator and fields.
    pub const SIZE: usize = 265;
    /// How many programs the registrar holds.
    pub const MAX_ACCEPTED_PROGRAMS: usize = 8;
}

/// The signer of a fee-configuration change.
#[derive(Debug, Clone, Copy)]
pub struct SetInfinixFeeConfig {
    pub admin: [u8; 32],
}

/// What `validate` answers for a signer and the requested settings.
pub open spec fn validation(admin: Seq<u8>, fee_numerator: Option<u128>, fee_floor: Option<u128>) -> Result<(), ErrorCode> {
    if admin != ADMIN@ {
        Err(ErrorCode::Unauthorized)
    } else if fee_numerator matches Some(n) && n > MAX_DAO_FEE {
        Err(ErrorCode::InvalidFeeNumerator)
    } else if fee_floor matches Some(f) && f > MAX_FEE_FLOOR {
        Err(ErrorCode::InvalidFeeFloor)
    } else {
        Ok(())
    }
}

/// A fee request is accepted exactly when the administrator signs it and each
/// requested value is within its bound; anyone else is refused as
/// unauthorized, whatever the values.
pub proof fn law_fee_request_accepted_within_bounds(admin: Seq<u8>, fee_numerator: Option<u128>, fee_floor: Option<u128>)
    ensures
        validation(admin, fee_numerator, fee_floor) is Ok <==> (admin == ADMIN@ && (fee_numerator matches Some(
            n,
        ) ==> n <= MAX_DAO_FEE) && (fee_floor matches Some(f) ==> f <= MAX_FEE_FLOOR)),
        admin != ADMIN@ ==> validation(admin, fee_numerator, fee_floor) == Err::<(), ErrorCode>(ErrorCode::Unauthorized),
{
}

impl SetInfinixFeeConfig {
    /// Only the administrator may change fees, to a numerator of at most
    /// `MAX_DAO_FEE` and a floor of at most `MAX_FEE_FLOOR`.
    pub fn validate(&self, scaled_fee_numerator: &Option<u128>, scaled_fee_floor: &Option<u128>) -> (r: Result<(), ErrorCode>)
        ensures
            r == validation(self.admin@, *scaled_fee_numerator, *scaled_fee_floor),
    {
        let admin = ADMIN;
        if !keys_equal(&self.admin, &admin) {
            return Err(ErrorCode::Unauthorized);
        }
        if let Some(n) = scaled_fee_numerator {
            if *n > MAX_DAO_FEE {
                return Err(ErrorCode::InvalidFeeNumerator);
            }
        }
        if let Some(f) = scaled_fee_floor {
            if *f > MAX_FEE_FLOOR {
                return Err(ErrorCode::InvalidFeeFloor);
            }
        }
        Ok(())
    }
}

/// `o`'s value, or `d` when there is none.
pub open spec fn or_default(o: Option<u128>, d: u128) -> u128 {
    match o {
        Some(v) => v,
        None => d,
    }
}

/// The fee config after `init_or_update_infinix_fee_config` succeeds on
/// `old` whose account data begins with the discriminator `disc`.
pub open spec fn fee_config_after(
    old: InfinixFeeConfig,
    disc: int,
    dao: DAOFeeConfig,
    bump: u8,
    fee_numerator: Option<u128>,
    fee_floor: Option<u128>,
) -> InfinixFeeConfig {
    if disc == 0 {
        InfinixFeeConfig {
            bump,
            fee_numerator: or_default(fee_numerator, dao.default_fee_numerator),
            fee_floor: or_default(fee_floor, dao.default_fee_floor),
        }
    } else {
        InfinixFeeConfig {
            bump: old.bump,
            fee_numerator: or_default(fee_numerator, old.fee_numerator),
            fee_floor: or_default(fee_floor, old.fee_floor),
        }
    }
}

impl InfinixFeeConfig {
    /// Initializes a fresh fee config (its account data starts with a zero
    /// discriminator) from the requested values or the DAO defaults, or updates
    /// an existing one with the requested values; an existing config must carry
    /// the expected bump.
    pub fn init_or_update_infinix_fee_config(
        infinix_fee_config: &mut InfinixFeeConfig,
        account_data: &[u8],
        dao_fee_config: &DAOFeeConfig,
        context_bump: u8,
        fee_numerator: Option<u128>,
        fee_floor: Option<u128>,
    ) -> (r: Result<(), ErrorCode>)
        requires
            account_data@.len() >= 8,
        ensures
            ({
                let disc = le_u64_at(account_data@, 0);
                if disc != 0 && old(infinix_fee_config).bump != context_bump {
                    r == Err::<(), ErrorCode>(ErrorCode::InvalidBump)
                        && *final(infinix_fee_config) == *old(infinix_fee_config)
                } else {
                    r == Ok::<(), ErrorCode>(())
                        && *final(infinix_fee_config) == fee_config_after(*old(infinix_fee_config),
                            disc, *dao_fee_config, context_bump, fee_numerator, fee_floor)
                }
            }),
            r is Ok && le_u64_at(account_data@, 0) != 0 ==> final(infinix_fee_config).bump == old(infinix_fee_config).bump,
            r is Ok && le_u64_at(account_data@, 0) != 0 && fee_numerator is None ==> final(infinix_fee_config).fee_numerator == old(infinix_fee_config).fee_numerator,
            r is Ok && le_u64_at(account_data@, 0) != 0 && fee_floor is None ==> final(infinix_fee_config).fee_floor == old(infinix_fee_config).fee_floor,
            r is Ok && le_u64_at(account_data@, 0) == 0 ==> final(infinix_fee_config).bump == context_bump,
            r is Ok && le_u64_at(account_data@, 0) == 0 && fee_numerator is None ==> final(infinix_fee_config).fee_numerator == dao_fee_config.default_fee_numerator,
            r is Ok && le_u64_at(account_data@, 0) == 0 && fee_floor is None ==> final(infinix_fee_config).fee_floor == dao_fee_config.default_fee_floor,
            r is Ok ==> (fee_numerator matches Some(v) ==> final(infinix_fee_config).fee_numerator == v),
            r is Ok ==> (fee_floor matches Some(v) ==> final(infinix_fee_config).fee_floor == v),
    {
        let discriminator = read_le_u64(account_data, 0);
        if discriminator == 0 {
            infinix_fee_config.bump = context_bump;
            infinix_fee_config.fee_numerator = match fee_numerator {
                Some(v) => v,
                None => dao_fee_config.default_fee_numerator,
            };
            infinix_fee_config.fee_floor = match fee_floor {
                Some(v) => v,
                None => dao_fee_config.default_fee_floor,
            };
        } else {
            if infinix_fee_config.bump != context_bump {
                return Err(ErrorCode::InvalidBump);
            }
            if let Some(v) = fee_numerator {
                infinix_fee_config.fee_numerator = v;
            }
            if let Some(v) = fee_floor {
                infinix_fee_config.fee_floor = v;
            }
        }
        Ok(())
    }
}

/// Sets the fee configuration of an index token: checks the signer and the
/// requested values, plans the distribution of the fees accrued so far, then
/// initializes or updates the config.  Returns the distribution call to make,
/// if any.
pub fn handler(
    signer: &SetInfinixFeeConfig,
    accounts: &DistributeFeesAccounts,
    fee_recipients_data: &[u8],
    infinix_fee_config: &mut InfinixFeeConfig,
    fee_config_data: &[u8],
    dao_fee_config: &DAOFeeConfig,
    context_bump: u8,
    scaled_fee_numerator: Option<u128>,
    scaled_fee_floor: Option<u128>,
) -> (r: Result<Option<InstructionPlan>, ErrorCode>)
    requires
        next_index_fits(fee_recipients_data@),
        fee_config_data@.len() >= 8,
    ensures
        validation(signer.admin@, scaled_fee_numerator, scaled_fee_floor) matches Err(e) ==> r == Err::<
            Option<InstructionPlan>,
            ErrorCode,
        >(e) && *final(infinix_fee_config) == *old(infinix_fee_config),
        validation(signer.admin@, scaled_fee_numerator, scaled_fee_floor) is Ok
            && 0 < fee_recipients_data@.len() < 24 ==> r == Err::<Option<InstructionPlan>, ErrorCode>(
            ErrorCode::InvalidFeeRecipient) && *final(infinix_fee_config) == *old(infinix_fee_config),
        validation(signer.admin@, scaled_fee_numerator, scaled_fee_floor) is Ok
            && (fee_recipients_data@.len() == 0 || fee_recipients_data@.len() >= 24) ==> ({
            let disc = le_u64_at(fee_config_data@, 0);
            if disc != 0 && old(infinix_fee_config).bump != context_bump {
                r == Err::<Option<InstructionPlan>, ErrorCode>(ErrorCode::InvalidBump)
                    && *final(infinix_fee_config) == *old(infinix_fee_config)
            } else {
                &&& *final(infinix_fee_config) == fee_config_after(*old(infinix_fee_config), disc,
                    *dao_fee_config, context_bump, scaled_fee_numerator, scaled_fee_floor)
                &&& r matches Ok(plan)
                &&& is_distribution_plan(plan, *accounts, fee_recipients_data@)
            }
        }),
{
    match signer.validate(&scaled_fee_numerator, &scaled_fee_floor) {
        Ok(()) => {},
        Err(e) => return Err(e),
    }
    let plan = match distribute_fees_cpi(accounts, fee_recipients_data) {
        Ok(p) => p,
        Err(e) => return Err(e),
    };
    match InfinixFeeConfig::init_or_update_infinix_fee_config(
        infinix_fee_config,
        fee_config_data,
        dao_fee_config,
        context_bump,
        scaled_fee_numerator,
        scaled_fee_floor,
    ) {
        Ok(()) => Ok(plan),
        Err(e) => Err(e),
    }
}

} // verus!
