use vstd::prelude::*;
use crate::bytes::{be_bytes_u64, le_u64_at, read_le_u64, to_be_bytes_u64};
use crate::errors::ErrorCode;
use vstd::string::StringSliceAdditionalSpecFns;

verus! {

/// The SHA-256 digest of a byte string.
pub uninterp spec fn sha256_digest(data: Seq<u8>) -> Seq<u8>;

/// SHA-256 of `data`.
///
/// Trusted: feeds `data` to `solana_program::hash::Hasher` (SHA-256, from
/// `solana-sha256-hasher`) and returns the 32-byte result; the contract names that
/// result `sha256_digest(data)`, a function of the bytes alone.
#[verifier::external_body]
fn sha256(data: &[u8]) -> (r: [u8; 32])
    ensures
        r@ == sha256_digest(data@),
{
    let mut hasher = anchor_lang::solana_program::hash::Hasher::default();
    hasher.hash(data);
    hasher.result().to_bytes()
}

/// Name of the fee-distribution instruction of the index-token program.
pub const DISTRIBUTE_FEES_FUNCTION_NAME: &'static str = "distribute_fees";

/// Length of an instruction discriminator.
pub const INSTRUCTION_DISCRIMINATOR_SIZE: usize = 8;

/// The bytes hashed to name an instruction: `global:` followed by its name.
pub open spec fn discriminator_preimage(name: Seq<u8>) -> Seq<u8> {
    seq![103u8, 108, 111, 98, 97, 108, 58] + name
}

/// The discriminator of the instruction whose name has the bytes `name`:
/// the first eight bytes of the SHA-256 of its preimage.
pub open spec fn instruction_discriminator(name: Seq<u8>) -> Seq<u8> {
    sha256_digest(discriminator_preimage(name)).subrange(0, 8)
}

/// The eight-byte discriminator that selects `instruction_name` in an Anchor program.
pub fn get_instruction_discriminator(instruction_name: &str) -> (r: [u8; 8])
    ensures
        r@ == instruction_discriminator(instruction_name.spec_bytes()),
{
    let name = instruction_name.as_bytes();
    let mut preimage: Vec<u8> = vec![103u8, 108, 111, 98, 97, 108, 58];
    let mut i: usize = 0;
    while i < name.len()
        invariant
            i <= name@.len(),
            name@ == instruction_name.spec_bytes(),
            preimage@ == seq![103u8, 108, 111, 98, 97, 108, 58] + name@.subrange(0, i as int),
        decreases name@.len() - i,
    {
        preimage.push(name[i]);
        proof {
            assert(name@.subrange(0, i + 1) =~= name@.subrange(0, i as int).push(name@[i as int]));
        }
        i = i + 1;
    }
    proof {
        assert(name@.subrange(0, i as int) =~= name@);
    }
    let h = sha256(preimage.as_slice());
    let r: [u8; 8] = [h[0], h[1], h[2], h[3], h[4], h[5], h[6], h[7]];
    assert(r@ =~= h@.subrange(0, 8));
    r
}

/// Whether the fee-recipients data can be read for its next index without
/// overflow: when it is long enough, its counter is below `u64::MAX`.
pub open spec fn next_index_fits(data: Seq<u8>) -> bool {
    data.len() >= 24 ==> le_u64_at(data, 16) < u64::MAX
}

/// The next fee-distribution index: one more than the little-endian counter
/// stored at bytes 16..24 of the fee-recipients account data.
pub fn get_next_index(fee_recipients_data: &[u8]) -> (r: Result<u64, ErrorCode>)
    requires
        next_index_fits(fee_recipients_data@),
    ensures
        fee_recipients_data@.len() < 24 ==> r == Err::<u64, ErrorCode>(ErrorCode::InvalidFeeRecipient),
        fee_recipients_data@.len() >= 24 ==> r == Ok::<u64, ErrorCode>(
            (le_u64_at(fee_recipients_data@, 16) + 1) as u64),
{
    if fee_recipients_data.len() < 24 {
        return Err(ErrorCode::InvalidFeeRecipient);
    }
    let next_index = read_le_u64(fee_recipients_data, 16);
    Ok(next_index + 1)
}

/// An account handed to a cross-program call: its key and how it is passed.
#[derive(Debug, Clone, Copy)]
pub struct AccountMetaView {
    pub key: [u8; 32],
    pub is_signer: bool,
    pub is_writable: bool,
}

/// A cross-program instruction to be invoked.
pub struct InstructionPlan {
    pub program_id: [u8; 32],
    pub accounts: Vec<AccountMetaView>,
    pub data: Vec<u8>,
}

/// The keys of the accounts the fee distribution call takes.
#[derive(Debug, Clone, Copy)]
pub struct DistributeFeesAccounts {
    pub infinix_program: [u8; 32],
    pub rent: [u8; 32],
    pub system_program: [u8; 32],
    pub token_program: [u8; 32],
    pub user: [u8; 32],
    pub dao_fee_config: [u8; 32],
    pub infinix_fee_config: [u8; 32],
    pub infinix: [u8; 32],
    pub infinix_token_mint: [u8; 32],
    pub fee_recipients: [u8; 32],
    pub fee_distribution: [u8; 32],
    pub dao_fee_recipient: [u8; 32],
}

/// An account passed by key, with its signer and writable flags.
pub open spec fn meta(key: [u8; 32], is_signer: bool, is_writable: bool) -> AccountMetaView {
    AccountMetaView { key, is_signer, is_writable }
}

/// The accounts of the fee distribution call, in order: rent, system and token
/// programs and both fee configs read-only, the user as writable signer, the
/// rest writable.
pub open spec fn distribute_fees_metas(a: DistributeFeesAccounts) -> Seq<AccountMetaView> {
    seq![
        meta(a.rent, false, false),
        meta(a.system_program, false, false),
        meta(a.token_program, false, false),
        meta(a.user, true, true),
        meta(a.dao_fee_config, false, false),
        meta(a.infinix_fee_config, false, false),
        meta(a.infinix, false, true),
        meta(a.infinix_token_mint, false, true),
        meta(a.fee_recipients, false, true),
        meta(a.fee_distribution, false, true),
        meta(a.dao_fee_recipient, false, true),
    ]
}

/// The instruction data of the fee distribution call for `next_index`:
/// the instruction's discriminator, then the index in big-endian order.
pub open spec fn distribute_fees_data(next_index: u64) -> Seq<u8> {
    instruction_discriminator(DISTRIBUTE_FEES_FUNCTION_NAME.spec_bytes()) + be_bytes_u64(next_index)
}

/// Whether `plan` is the fee distribution call for the accounts `accounts`
/// and fee-recipients data `data`: none without data, else the call with
/// the next index read from the data.
pub open spec fn is_distribution_plan(plan: Option<InstructionPlan>, accounts: DistributeFeesAccounts, data: Seq<u8>) -> bool {
    match plan {
        None => data.len() == 0,
        Some(p) => {
            &&& data.len() >= 24
            &&& p.program_id == accounts.infinix_program
            &&& p.accounts@ == distribute_fees_metas(accounts)
            &&& p.data@ == distribute_fees_data((le_u64_at(data, 16) + 1) as u64)
        },
    }
}

/// Plans the call that distributes pending fees before a fee change.
///
/// With no fee-recipients data there is nothing to distribute and no call is
/// made; otherwise the call carries the next distribution index, and fails with
/// `InvalidFeeRecipient` when the data is too short to hold it.
pub fn distribute_fees_cpi(accounts: &DistributeFeesAccounts, fee_recipients_data: &[u8]) -> (r: Result<
    Option<InstructionPlan>,
    ErrorCode,
>)
    requires
        next_index_fits(fee_recipients_data@),
    ensures
        0 < fee_recipients_data@.len() < 24 ==> r == Err::<Option<InstructionPlan>, ErrorCode>(
            ErrorCode::InvalidFeeRecipient),
        !(0 < fee_recipients_data@.len() < 24) ==> (r matches Ok(plan)
            && is_distribution_plan(plan, *accounts, fee_recipients_data@)),
{
    if fee_recipients_data.len() == 0 {
        return Ok(None);
    }
    let next_index = match get_next_index(fee_recipients_data) {
        Ok(v) => v,
        Err(e) => return Err(e),
    };
    let metas: Vec<AccountMetaView> = vec![
        AccountMetaView { key: accounts.rent, is_signer: false, is_writable: false },
        AccountMetaView { key: accounts.system_program, is_signer: false, is_writable: false },
        AccountMetaView { key: accounts.token_program, is_signer: false, is_writable: false },
        AccountMetaView { key: accounts.user, is_signer: true, is_writable: true },
        AccountMetaView { key: accounts.dao_fee_config, is_signer: false, is_writable: false },
        AccountMetaView { key: accounts.infinix_fee_config, is_signer: false, is_writable: false },
        AccountMetaView { key: accounts.infinix, is_signer: false, is_writable: true },
        AccountMetaView { key: accounts.infinix_token_mint, is_signer: false, is_writable: true },
        AccountMetaView { key: accounts.fee_recipients, is_signer: false, is_writable: true },
        AccountMetaView { key: accounts.fee_distribution, is_signer: false, is_writable: true },
        AccountMetaView { key: accounts.dao_fee_recipient, is_signer: false, is_writable: true },
    ];
    let disc = get_instruction_discriminator(DISTRIBUTE_FEES_FUNCTION_NAME);
    let idx = to_be_bytes_u64(next_index);
    let mut data: Vec<u8> = Vec::new();
    let mut i: usize = 0;
    while i < 8
        invariant
            i <= 8,
            data@ == disc@.subrange(0, i as int),
        decreases 8 - i,
    {
        data.push(disc[i]);
        proof {
            assert(disc@.subrange(0, i + 1) =~= disc@.subrange(0, i as int).push(disc@[i as int]));
        }
        i = i + 1;
    }
    let mut j: usize = 0;
    while j < 8
        invariant
            j <= 8,
            data@ == disc@ + idx@.subrange(0, j as int),
        decreases 8 - j,
    {
        data.push(idx[j]);
        proof {
            assert(idx@.subrange(0, j + 1) =~= idx@.subrange(0, j as int).push(idx@[j as int]));
        }
        j = j + 1;
    }
    proof {
        assert(idx@.subrange(0, 8) =~= idx@);
        assert(metas@ =~= distribute_fees_metas(*accounts));
    }
    Ok(Some(InstructionPlan { program_id: accounts.infinix_program, accounts: metas, data }))
}

} // verus!
