use vstd::prelude::*;
use crate::bytes::keys_equal;
use crate::errors::ErrorCode;

verus! {

/// What the account checks read of an account handed to an instruction.
pub struct AccountSnapshot {
    pub key: [u8; 32],
    pub owner: [u8; 32],
    pub is_signer: bool,
    pub is_writable: bool,
    pub executable: bool,
    pub lamports: u64,
    pub data_len: usize,
}

/// Bytes of the SPL Token program id.
pub open spec fn spl_token_id() -> Seq<u8> {
    seq![6u8, 221, 246, 225, 215, 101, 161, 147, 217, 203, 225, 70, 206, 235, 121, 172,
        28, 180, 133, 237, 95, 91, 55, 145, 58, 140, 245, 133, 126, 255, 0, 169]
}

/// Bytes of the SPL Token-2022 program id.
pub open spec fn spl_token_2022_id() -> Seq<u8> {
    seq![6u8, 221, 246, 225, 238, 117, 143, 222, 24, 66, 93, 188, 228, 108, 205, 218,
        182, 26, 252, 77, 131, 185, 13, 39, 254, 189, 249, 40, 216, 161, 139, 252]
}

/// The SPL Token program id.
///
/// Trusted: reads `anchor_spl::token::ID` (re-exported from `spl_token`, declared there as
/// `TokenkegQfeZyiNwAJbNbGKPFXCWuBvf9Ss623VQ5DA`); the contract states its 32 bytes.
#[verifier::external_body]
fn token_program_id() -> (r: [u8; 32])
    ensures
        r@ == spl_token_id(),
{
    anchor_spl::token::ID.to_bytes()
}

/// The SPL Token-2022 program id.
///
/// Trusted: reads `anchor_spl::token_2022::ID` (re-exported from `spl_token_2022`, declared
/// there as `TokenzQdBNbLqP5VEhdkAS6EPFLC1PHnBqCXEpPxuEb`); the contract states its 32 bytes.
#[verifier::external_body]
fn token_2022_program_id() -> (r: [u8; 32])
    ensures
        r@ == spl_token_2022_id(),
{
    anchor_spl::token_2022::ID.to_bytes()
}

/// The checks `next_account` makes of one account.
pub open spec fn account_check(
    a: AccountSnapshot,
    must_be_signer: bool,
    must_be_writable: bool,
    expected_owner: Seq<u8>,
) -> Result<(), ErrorCode> {
    if a.is_signer != must_be_signer {
        Err(ErrorCode::AccountNotSigner)
    } else if a.is_writable != must_be_writable {
        Err(ErrorCode::AccountNotWritable)
    } else if a.data_len != 0 && a.owner@ != expected_owner {
        Err(ErrorCode::InvalidAccountOwner)
    } else {
        Ok(())
    }
}

/// The checks `next_token_program` makes of one account.
pub open spec fn token_program_check(a: AccountSnapshot) -> Result<(), ErrorCode> {
    if a.key@ != spl_token_id() && a.key@ != spl_token_2022_id() {
        Err(ErrorCode::InvalidTokenProgram)
    } else if !a.executable {
        Err(ErrorCode::AccountNotExecutable)
    } else {
        Ok(())
    }
}

/// Where the cursor stands after taking the next account: one further on,
/// unless the accounts were already exhausted.
pub open spec fn advanced(len: int, cursor: int) -> int {
    if cursor < len { cursor + 1 } else { cursor }
}

/// Takes the next account of `accounts` at `cursor` and checks its signer and
/// writable flags and, when it holds data, its owner.  Returns its index.
pub fn next_account(
    accounts: &[AccountSnapshot],
    cursor: &mut usize,
    must_be_signer: bool,
    must_be_writable: bool,
    expected_owner: &[u8; 32],
) -> (r: Result<usize, ErrorCode>)
    ensures
        *final(cursor) == advanced(accounts@.len() as int, *old(cursor) as int),
        *old(cursor) >= accounts@.len() ==> r == Err::<usize, ErrorCode>(ErrorCode::MissingRemainingAccount),
        *old(cursor) < accounts@.len() ==> r == match account_check(
            accounts@[*old(cursor) as int], must_be_signer, must_be_writable, expected_owner@) {
            Ok(_) => Ok::<usize, ErrorCode>(*old(cursor)),
            Err(e) => Err(e),
        },
{
    if *cursor >= accounts.len() {
        return Err(ErrorCode::MissingRemainingAccount);
    }
    let idx = *cursor;
    *cursor = idx + 1;
    let account = &accounts[idx];
    if account.is_signer != must_be_signer {
        return Err(ErrorCode::AccountNotSigner);
    }
    if account.is_writable != must_be_writable {
        return Err(ErrorCode::AccountNotWritable);
    }
    if account.data_len != 0 && !keys_equal(&account.owner, expected_owner) {
        return Err(ErrorCode::InvalidAccountOwner);
    }
    Ok(idx)
}

/// Takes the next account of `accounts` at `cursor` and checks that it is an
/// executable SPL Token or Token-2022 program.  Returns its index.
pub fn next_token_program(accounts: &[AccountSnapshot], cursor: &mut usize) -> (r: Result<usize, ErrorCode>)
    ensures
        *final(cursor) == advanced(accounts@.len() as int, *old(cursor) as int),
        *old(cursor) >= accounts@.len() ==> r == Err::<usize, ErrorCode>(ErrorCode::MissingRemainingAccount),
        *old(cursor) < accounts@.len() ==> r == match token_program_check(accounts@[*old(cursor) as int]) {
            Ok(_) => Ok::<usize, ErrorCode>(*old(cursor)),
            Err(e) => Err(e),
        },
{
    if *cursor >= accounts.len() {
        return Err(ErrorCode::MissingRemainingAccount);
    }
    let idx = *cursor;
    *cursor = idx + 1;
    let account = &accounts[idx];
    let token = token_program_id();
    let token_2022 = token_2022_program_id();
    if !keys_equal(&account.key, &token) && !keys_equal(&account.key, &token_2022) {
        return Err(ErrorCode::InvalidTokenProgram);
    }
    if !account.executable {
        return Err(ErrorCode::AccountNotExecutable);
    }
    Ok(idx)
}

/// One system-program step of bringing a program-derived account to rent exemption.
#[derive(Debug, Clone, Copy, PartialEq, Eq, Structural)]
pub enum PdaInitStep {
    /// Create the account, funded with `lamports`, with `space` bytes of data.
    CreateAccount { lamports: u64, space: u64 },
    /// Move `lamports` from the payer into the account.
    Transfer { lamports: u64 },
    /// Allocate `space` bytes of data.
    Allocate { space: u64 },
    /// Assign the account to the owning program.
    Assign,
}

/// The steps that bring a program-derived account holding `current_lamports`
/// to `space` bytes of data, owned by the program and funded to `rent_lamports`
/// (the rent-exempt minimum for that space).
///
/// An empty account is created outright; an account that already holds
/// lamports is topped up to the minimum (when short), then allocated and assigned.
pub fn init_pda_account_rent(current_lamports: u64, rent_lamports: u64, space: usize) -> (r: Vec<PdaInitStep>)
    ensures
        current_lamports == 0 ==> r@ == seq![
            PdaInitStep::CreateAccount { lamports: rent_lamports, space: space as u64 }],
        current_lamports != 0 && rent_lamports > current_lamports ==> r@ == seq![
            PdaInitStep::Transfer { lamports: (rent_lamports - current_lamports) as u64 },
            PdaInitStep::Allocate { space: space as u64 },
            PdaInitStep::Assign],
        current_lamports != 0 && rent_lamports <= current_lamports ==> r@ == seq![
            PdaInitStep::Allocate { space: space as u64 },
            PdaInitStep::Assign],
{
    let mut steps: Vec<PdaInitStep> = Vec::new();
    if current_lamports == 0 {
        steps.push(PdaInitStep::CreateAccount { lamports: rent_lamports, space: space as u64 });
    } else {
        let lamports_needed = rent_lamports.saturating_sub(current_lamports);
        if lamports_needed > 0 {
            steps.push(PdaInitStep::Transfer { lamports: lamports_needed });
        }
        steps.push(PdaInitStep::Allocate { space: space as u64 });
        steps.push(PdaInitStep::Assign);
    }
    steps
}

} // verus!
