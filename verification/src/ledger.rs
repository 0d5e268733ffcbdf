//! The token ledger and the host, as far as the program calls into them.
//!
//! Nothing in this file is proved: each function here makes one call into
//! `solana_program` or `spl_token`, and its contract says what that call
//! is taken to do.

use crate::account::{AccountMeta, Instruction, InstructionView, LoadedAccount};
use crate::address::Address;
use solana_program::account_info::AccountInfo;
use solana_program::clock::Clock;
use solana_program::program_error::ProgramError;
use solana_program::program_pack::Pack;
use solana_program::pubkey::Pubkey;
use vstd::bytes::spec_u64_to_le_bytes;
use vstd::prelude::*;

verus! {

/// The error type of `solana_program`. Nothing is known of a value of it.
#[verifier::external_type_specification]
#[verifier::external_body]
pub struct ExProgramError(ProgramError);

/// A decoded token account of `spl_token`. Nothing is known of a value of
/// it.
#[verifier::external_type_specification]
#[verifier::external_body]
#[allow(deprecated)]
pub struct ExTokenAccount(spl_token::state::Account);

/// A decoded mint of `spl_token`. Nothing is known of a value of it.
#[verifier::external_type_specification]
#[verifier::external_body]
#[allow(deprecated)]
pub struct ExMint(spl_token::state::Mint);

/// The address of the token program, `TokenkegQfeZyiNwAJbNbGKPFXCWuBvf9Ss623VQ5DA`.
pub open spec fn spec_token_program_id() -> Seq<u8> {
    seq![
        6u8, 221, 246, 225, 215, 101, 161, 147, 217, 203, 225, 70, 206, 235, 121, 172,
        28, 180, 133, 237, 95, 91, 55, 145, 58, 140, 245, 133, 126, 255, 0, 169,
    ]
}

/// The address of the clock account, `SysvarC1ock11111111111111111111111111111111`.
pub open spec fn spec_clock_sysvar_id() -> Seq<u8> {
    seq![
        6u8, 167, 213, 23, 24, 199, 116, 201, 40, 86, 99, 152, 105, 29, 94, 182,
        139, 94, 184, 163, 155, 75, 109, 92, 115, 85, 91, 33, 0, 0, 0, 0,
    ]
}

/// The instruction by which the token program moves `amount` from `source`
/// to `destination` on the word of the single signer `authority`: tag 3
/// and the amount in little-endian order, over the two writable accounts
/// and the signer.
pub open spec fn spec_transfer_instruction(
    token_program: Address,
    source: Address,
    destination: Address,
    authority: Address,
    amount: u64,
) -> InstructionView {
    InstructionView {
        program_id: token_program,
        accounts: seq![
            AccountMeta { pubkey: source, is_signer: false, is_writable: true },
            AccountMeta { pubkey: destination, is_signer: false, is_writable: true },
            AccountMeta { pubkey: authority, is_signer: true, is_writable: false },
        ],
        data: seq![3u8] + spec_u64_to_le_bytes(amount),
    }
}

/// The time that `Clock::from_account_info` reads from an account with
/// the address `key` and the data `data`, or `None` where it refuses the
/// account.
pub uninterp spec fn clock_timestamp(key: Seq<u8>, data: Seq<u8>) -> Option<i64>;

/// Whether `spl_token::state::Account::unpack` accepts `data`.
pub uninterp spec fn token_account_decodes(data: Seq<u8>) -> bool;

/// Whether `spl_token::state::Mint::unpack` accepts `data`.
pub uninterp spec fn mint_decodes(data: Seq<u8>) -> bool;

/// `spl_token::instruction::transfer` with no further signers. It refuses
/// every program but the token program, and builds for the token program
/// the instruction stated in `spec_transfer_instruction`.
#[verifier::external_body]
#[allow(deprecated)]
pub(crate) fn spl_transfer(
    token_program: &Address,
    source: &Address,
    destination: &Address,
    authority: &Address,
    amount: u64,
) -> (built: Result<Instruction, ProgramError>)
    ensures
        built is Ok <==> token_program@ == spec_token_program_id(),
        built matches Ok(instruction) ==> instruction@ == spec_transfer_instruction(
            *token_program,
            *source,
            *destination,
            *authority,
            amount,
        ),
{
    let program = Pubkey::new_from_array(token_program.bytes);
    let from = Pubkey::new_from_array(source.bytes);
    let to = Pubkey::new_from_array(destination.bytes);
    let by = Pubkey::new_from_array(authority.bytes);
    let built = spl_token::instruction::transfer(&program, &from, &to, &by, &[], amount)?;
    let program_id = Address::new_from_array(built.program_id.to_bytes());
    let metas = built.accounts.iter();
    let accounts = metas.map(
        |m| AccountMeta::from_parts(m.pubkey.to_bytes(), m.is_signer, m.is_writable),
    ).collect();
    Ok(Instruction { program_id, accounts, data: built.data })
}

/// `Clock::from_account_info` on an account with the address and the data
/// of `account`, and of the clock it gives, the time in seconds; `None`
/// where it gives an error. What it gives is taken to depend on the
/// address and the data alone.
#[verifier::external_body]
#[allow(deprecated)]
pub(crate) fn read_clock(account: &LoadedAccount) -> (time: Option<i64>)
    ensures
        time == clock_timestamp(account.key@, account.data@),
{
    let key = Pubkey::new_from_array(account.key.bytes);
    let owner = Pubkey::new_from_array(account.owner.bytes);
    let mut lamports = 0u64;
    let mut data = account.data.clone();
    let info = AccountInfo::new(&key, false, false, &mut lamports, &mut data, &owner, false);
    let clock: Result<Clock, ProgramError> =
        solana_program::sysvar::SysvarSerialize::from_account_info(&info);
    clock.ok().map(|clock| clock.unix_timestamp)
}

/// `solana_program::sysvar::clock::id`: the address of the clock account,
/// which is taken to be the one written out in `spec_clock_sysvar_id`.
#[verifier::external_body]
#[allow(deprecated)]
pub(crate) fn clock_sysvar_id() -> (id: Address)
    ensures
        id@ == spec_clock_sysvar_id(),
{
    Address::new_from_array(solana_program::sysvar::clock::id().to_bytes())
}

/// `spl_token::state::Account::unpack`. Whether it accepts the data is
/// taken to depend on the data alone.
#[verifier::external_body]
#[allow(deprecated)]
pub(crate) fn spl_unpack_account(data: &[u8]) -> (decoded: Result<
    spl_token::state::Account,
    ProgramError,
>)
    ensures
        decoded is Ok <==> token_account_decodes(data@),
{
    spl_token::state::Account::unpack(data)
}

/// `spl_token::state::Mint::unpack`. Whether it accepts the data is taken
/// to depend on the data alone.
#[verifier::external_body]
#[allow(deprecated)]
pub(crate) fn spl_unpack_mint(data: &[u8]) -> (decoded: Result<spl_token::state::Mint, ProgramError>)
    ensures
        decoded is Ok <==> mint_decodes(data@),
{
    spl_token::state::Mint::unpack(data)
}

} // verus!
