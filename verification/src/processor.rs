//! The commands of the program.
//!
//! A command reads the accounts handed to it by their position, decides on
//! plain values what is to happen, and hands back the transfers that the
//! token program is to make. It performs none of them itself: whoever runs
//! the program invokes them in the order given and gives up at the first
//! failure.

use crate::account::{account_views, LoadedAccount};
use crate::address::Address;
use crate::error::{AuctionError, Fault};
use crate::fees::AuctionFees;
use crate::instruction::{
    AuctionInstruction, Cancel, InitializeData, PlaceBid, UnixTimestamp, Withdraw,
};
use crate::ledger::{
    mint_decodes, read_clock, spec_token_program_id, spl_transfer, spl_unpack_account,
    spl_unpack_mint, token_account_decodes,
};
use crate::state::{AuctionState, AuctionV1, AuctionVersion};
use crate::transition::{
    accounts_are, outcome_is, record_is, spec_bid_refusal, spec_cancel, spec_cancel_record,
    spec_initialize, spec_initialize_record, spec_place_bid, spec_place_bid_at, spec_process,
    spec_quiet, spec_transfer_call, spec_with_record, spec_withdraw, spec_withdraw_fee,
    spec_withdraw_from, spec_withdraw_requests, BidRefusal, Outcome, TransferCall,
    TransferRequest,
};
use vstd::prelude::*;

verus! {

/// Widens an amount to 128 bits.
fn to_u128(val: u64) -> (wide: Result<u128, AuctionError>)
    ensures
        wide == Ok::<u128, AuctionError>(val as u128),
{
    match u128::try_from(val) {
        Ok(wide) => Ok(wide),
        Err(_) => Err(AuctionError::ConversionFailure),
    }
}

/// Narrows an amount to the ledger's 64 bits, where it fits.
fn to_u64(val: u128) -> (narrow: Result<u64, AuctionError>)
    ensures
        narrow == if val <= u64::MAX {
            Ok::<u64, AuctionError>(val as u64)
        } else {
            Err(AuctionError::ConversionFailure)
        },
{
    match u64::try_from(val) {
        Ok(narrow) => Ok(narrow),
        Err(_) => Err(AuctionError::ConversionFailure),
    }
}

/// The program's commands.
pub struct Processor {}

impl Processor {
    /// Decodes the data of a token account, once the account is seen to
    /// belong to the token program `token_program_id`.
    #[allow(deprecated)]
    pub fn unpack_token_account(account_info: &LoadedAccount, token_program_id: &Address) -> (decoded:
        Result<spl_token::state::Account, AuctionError>)
        ensures
            decoded is Ok <==> account_info.owner == *token_program_id && token_account_decodes(
                account_info.data@,
            ),
            decoded matches Err(e) ==> e == if account_info.owner != *token_program_id {
                AuctionError::IncorrectTokenProgramId
            } else {
                AuctionError::ExpectedAccount
            },
    {
        if account_info.owner != *token_program_id {
            Err(AuctionError::IncorrectTokenProgramId)
        } else {
            match spl_unpack_account(account_info.data.as_slice()) {
                Ok(account) => Ok(account),
                Err(_) => Err(AuctionError::ExpectedAccount),
            }
        }
    }

    /// Decodes the data of a mint, once the account is seen to belong to
    /// the token program `token_program_id`.
    #[allow(deprecated)]
    pub fn unpack_mint(account_info: &LoadedAccount, token_program_id: &Address) -> (decoded: Result<
        spl_token::state::Mint,
        AuctionError,
    >)
        ensures
            decoded is Ok <==> account_info.owner == *token_program_id && mint_decodes(
                account_info.data@,
            ),
            decoded matches Err(e) ==> e == if account_info.owner != *token_program_id {
                AuctionError::IncorrectTokenProgramId
            } else {
                AuctionError::ExpectedMint
            },
    {
        if account_info.owner != *token_program_id {
            Err(AuctionError::IncorrectTokenProgramId)
        } else {
            match spl_unpack_mint(account_info.data.as_slice()) {
                Ok(mint) => Ok(mint),
                Err(_) => Err(AuctionError::ExpectedMint),
            }
        }
    }

    /// Sets up a new auction in the record account, unless the account
    /// holds an initialized record already or the fee schedule is not
    /// acceptable. Where it fails, no account changes.
    pub fn process_initialize(
        program_id: &Address,
        fees: AuctionFees,
        nonce: u8,
        start_timestamp: UnixTimestamp,
        end_timestamp: UnixTimestamp,
        accounts: &mut [LoadedAccount],
    ) -> (done: Result<(), Fault>)
        ensures
            accounts_are(
                done,
                account_views(old(accounts)@),
                account_views(final(accounts)@),
                spec_initialize(
                    fees,
                    nonce,
                    start_timestamp,
                    end_timestamp,
                    account_views(old(accounts)@),
                ),
            ),
    {
        if accounts.len() < 5 {
            assert(account_views(accounts@) =~= account_views(old(accounts)@));
            return Err(Fault::NotEnoughAccountKeys);
        }
        let token = accounts[1].key;
        let pool = accounts[2].key;
        let fee_account = accounts[3].key;
        let token_program_id = accounts[4].key;
        let done = Self::initialize_record(
            accounts[0].data.as_mut_slice(),
            fees,
            nonce,
            start_timestamp,
            end_timestamp,
            &token_program_id,
            &token,
            &pool,
            &fee_account,
        );
        proof {
            let before = account_views(old(accounts)@);
            let after = account_views(accounts@);
            if done is Ok {
                assert(after =~= spec_with_record(before, accounts@[0].data@));
            } else {
                assert(after =~= before);
            }
        }
        done
    }

    /// Sets up a new auction in the record buffer: an initialized record
    /// that is not canceled, with the fee schedule, the nonce and the
    /// window given and the four accounts named. Refuses a buffer that
    /// holds an initialized record, whatever else it holds, then a fee
    /// schedule that is not acceptable, then a buffer that has not the
    /// length of a record. Where it fails, the buffer is as it was.
    pub fn initialize_record(
        record: &mut [u8],
        fees: AuctionFees,
        nonce: u8,
        start_timestamp: UnixTimestamp,
        end_timestamp: UnixTimestamp,
        token_program_id: &Address,
        token: &Address,
        pool: &Address,
        fee_account: &Address,
    ) -> (done: Result<(), Fault>)
        ensures
            record_is(
                done,
                old(record)@,
                final(record)@,
                spec_initialize_record(
                    old(record)@,
                    fees,
                    nonce,
                    start_timestamp,
                    end_timestamp,
                    *token_program_id,
                    *token,
                    *pool,
                    *fee_account,
                ),
            ),
            AuctionVersion::spec_is_initialized(old(record)@) ==> done == Err::<(), Fault>(
                Fault::Custom(AuctionError::AlreadyInUse),
            ),
    {
        if AuctionVersion::is_initialized(record) {
            return Err(Fault::Custom(AuctionError::AlreadyInUse));
        }
        match fees.validate() {
            Ok(()) => {},
            Err(e) => {
                return Err(Fault::Custom(e));
            },
        }
        let canceled: u8 = 0;
        let obj = AuctionVersion::AuctionV1(
            AuctionV1 {
                is_initialized: true,
                token_program_id: *token_program_id,
                token: *token,
                pool: *pool,
                fee_account: *fee_account,
                fees,
                nonce,
                start_timestamp,
                end_timestamp,
                canceled,
            },
        );
        AuctionVersion::pack(obj, record)?;
        Ok(())
    }

    /// Makes a transfer ready for the token program. Fails where
    /// `token_program` is not the token program.
    pub fn token_transfer(
        auction: &Address,
        token_program: &Address,
        source: &Address,
        destination: &Address,
        authority: &Address,
        nonce: u8,
        amount: u64,
    ) -> (call: Result<TransferCall, Fault>)
        ensures
            call is Ok <==> token_program@ == spec_token_program_id(),
            call matches Err(fault) ==> fault == Fault::IncorrectProgramId,
            call matches Ok(made) ==> made@ == spec_transfer_call(
                *auction,
                *token_program,
                TransferRequest {
                    source: *source,
                    destination: *destination,
                    authority: *authority,
                    nonce,
                    amount,
                },
            ),
    {
        match spl_transfer(token_program, source, destination, authority, amount) {
            Ok(instruction) => Ok(
                TransferCall {
                    auction: *auction,
                    request: TransferRequest {
                        source: *source,
                        destination: *destination,
                        authority: *authority,
                        nonce,
                        amount,
                    },
                    instruction,
                },
            ),
            Err(_) => Err(Fault::IncorrectProgramId),
        }
    }

    /// Takes a bid: reads the time from the clock account and the record
    /// from the record account, and where the auction is open, makes the
    /// transfer of the bid ready. A bid outside the window or on a canceled
    /// auction succeeds with no transfer.
    pub fn process_place_bid(program_id: &Address, bid_amount: u64, accounts: &[LoadedAccount]) -> (outcome:
        Result<Outcome, Fault>)
        ensures
            outcome_is(outcome, spec_place_bid(bid_amount, account_views(accounts@))),
    {
        if accounts.len() < 6 {
            return Err(Fault::NotEnoughAccountKeys);
        }
        let auction_info = &accounts[0];
        let token_info = &accounts[1];
        let pool_info = &accounts[2];
        let token_program_info = &accounts[3];
        let user_transfer_authority_info = &accounts[4];
        let clock_sysvar_info = &accounts[5];
        let now = match read_clock(clock_sysvar_info) {
            Some(now) => now,
            None => {
                return Err(Fault::InvalidArgument);
            },
        };
        Self::place_bid_at(
            auction_info.data.as_slice(),
            now,
            bid_amount,
            &auction_info.key,
            &token_program_info.key,
            &token_info.key,
            &pool_info.key,
            &user_transfer_authority_info.key,
        )
    }

    /// Takes a bid at the time `now` on the record in `record`: where the
    /// auction is open, makes the transfer of `bid_amount` from `deposit`
    /// to `pool` ready, signed under the record's nonce; where the auction
    /// is over, has not begun or is canceled, says so and asks for
    /// nothing, and still succeeds.
    pub fn place_bid_at(
        record: &[u8],
        now: UnixTimestamp,
        bid_amount: u64,
        auction_key: &Address,
        token_program: &Address,
        deposit: &Address,
        pool: &Address,
        authority: &Address,
    ) -> (outcome: Result<Outcome, Fault>)
        ensures
            outcome_is(
                outcome,
                spec_place_bid_at(
                    record@,
                    now,
                    bid_amount,
                    *auction_key,
                    *token_program,
                    *deposit,
                    *pool,
                    *authority,
                ),
            ),
    {
        let auction = AuctionVersion::unpack(record)?;
        match Self::decide_bid(&auction, now, bid_amount, deposit, pool, authority) {
            Err(refusal) => {
                let outcome = Outcome { refusal: Some(refusal), transfers: Vec::new() };
                assert(outcome@.transfers =~= Seq::empty());
                Ok(outcome)
            },
            Ok(request) => {
                let call = Self::token_transfer(
                    auction_key,
                    token_program,
                    &request.source,
                    &request.destination,
                    &request.authority,
                    request.nonce,
                    request.amount,
                )?;
                let mut transfers = Vec::new();
                transfers.push(call);
                let outcome = Outcome { refusal: None, transfers };
                assert(outcome@.transfers =~= seq![call@]);
                Ok(outcome)
            },
        }
    }

    /// Decides whether a bid at the time `now` is taken, and if so, which
    /// movement it asks for: `bid_amount` from `deposit` to `pool`, on the
    /// word of `authority`, under the auction's nonce.
    pub fn decide_bid(
        auction: &AuctionVersion,
        now: UnixTimestamp,
        bid_amount: u64,
        deposit: &Address,
        pool: &Address,
        authority: &Address,
    ) -> (decision: Result<TransferRequest, BidRefusal>)
        ensures
            decision == match spec_bid_refusal(auction.record(), now) {
                Some(refusal) => Err::<TransferRequest, BidRefusal>(refusal),
                None => Ok(
                    TransferRequest {
                        source: *deposit,
                        destination: *pool,
                        authority: *authority,
                        nonce: auction.record().nonce,
                        amount: bid_amount,
                    },
                ),
            },
    {
        if now > auction.end_timestamp() {
            Err(BidRefusal::Ended)
        } else if now < auction.start_timestamp() {
            Err(BidRefusal::NotStarted)
        } else if auction.canceled() == 1 {
            Err(BidRefusal::Canceled)
        } else {
            Ok(
                TransferRequest {
                    source: *deposit,
                    destination: *pool,
                    authority: *authority,
                    nonce: auction.nonce(),
                    amount: bid_amount,
                },
            )
        }
    }

    /// Pays a bid out: reads the record from the record account, computes
    /// the fee, and makes ready the transfer of the amount from the pool to
    /// the account to credit and the transfer of the fee from the pool to
    /// the fee account.
    pub fn process_withdraw(program_id: &Address, bid_amount: u64, accounts: &[LoadedAccount]) -> (outcome:
        Result<Outcome, Fault>)
        ensures
            outcome_is(outcome, spec_withdraw(bid_amount, account_views(accounts@))),
    {
        if accounts.len() < 6 {
            return Err(Fault::NotEnoughAccountKeys);
        }
        let auction_info = &accounts[0];
        let pool_info = &accounts[1];
        let destination_info = &accounts[2];
        let fee_account_info = &accounts[3];
        let token_program_info = &accounts[4];
        let user_transfer_authority_info = &accounts[5];
        Self::withdraw_from(
            auction_info.data.as_slice(),
            bid_amount,
            &auction_info.key,
            &token_program_info.key,
            &pool_info.key,
            &destination_info.key,
            &fee_account_info.key,
            &user_transfer_authority_info.key,
        )
    }

    /// Pays a bid out of the record in `record`: computes the fee on
    /// `bid_amount`, and makes ready the transfer of the amount from
    /// `pool` to `destination` and then the transfer of the fee from `pool`
    /// to `fee_account`, both signed under the record's nonce. Neither the
    /// clock nor the cancellation flag is looked at.
    pub fn withdraw_from(
        record: &[u8],
        bid_amount: u64,
        auction_key: &Address,
        token_program: &Address,
        pool: &Address,
        destination: &Address,
        fee_account: &Address,
        authority: &Address,
    ) -> (outcome: Result<Outcome, Fault>)
        ensures
            outcome_is(
                outcome,
                spec_withdraw_from(
                    record@,
                    bid_amount,
                    *auction_key,
                    *token_program,
                    *pool,
                    *destination,
                    *fee_account,
                    *authority,
                ),
            ),
    {
        let auction = AuctionVersion::unpack(record)?;
        let (payout, fee) = Self::decide_withdraw(
            &auction,
            bid_amount,
            pool,
            destination,
            fee_account,
            authority,
        )?;
        let payout_call = Self::token_transfer(
            auction_key,
            token_program,
            &payout.source,
            &payout.destination,
            &payout.authority,
            payout.nonce,
            payout.amount,
        )?;
        let fee_call = Self::token_transfer(
            auction_key,
            token_program,
            &fee.source,
            &fee.destination,
            &fee.authority,
            fee.nonce,
            fee.amount,
        )?;
        let mut transfers = Vec::new();
        transfers.push(payout_call);
        transfers.push(fee_call);
        let outcome = Outcome { refusal: None, transfers };
        assert(outcome@.transfers =~= seq![payout_call@, fee_call@]);
        Ok(outcome)
    }

    /// Computes the fee of a withdrawal and the two movements it asks for.
    pub fn decide_withdraw(
        auction: &AuctionVersion,
        bid_amount: u64,
        pool: &Address,
        destination: &Address,
        fee_account: &Address,
        authority: &Address,
    ) -> (decision: Result<(TransferRequest, TransferRequest), Fault>)
        ensures
            decision == match spec_withdraw_fee(auction.record().fees, bid_amount) {
                Err(fault) => Err::<(TransferRequest, TransferRequest), Fault>(fault),
                Ok(fee) => Ok(
                    spec_withdraw_requests(
                        auction.record(),
                        bid_amount,
                        fee,
                        *pool,
                        *destination,
                        *fee_account,
                        *authority,
                    ),
                ),
            },
    {
        let amount = match to_u128(bid_amount) {
            Ok(amount) => amount,
            Err(e) => {
                return Err(Fault::Custom(e));
            },
        };
        let fee = match auction.fees().auction_fee(amount) {
            Some(fee) => fee,
            None => {
                return Err(Fault::Custom(AuctionError::FeeCalculationFailure));
            },
        };
        let withdraw_fee: u64 = match to_u64(fee) {
            Ok(fee) => fee,
            Err(e) => {
                return Err(Fault::Custom(e));
            },
        };
        Ok(
            (
                TransferRequest {
                    source: *pool,
                    destination: *destination,
                    authority: *authority,
                    nonce: auction.nonce(),
                    amount: bid_amount,
                },
                TransferRequest {
                    source: *pool,
                    destination: *fee_account,
                    authority: *authority,
                    nonce: auction.nonce(),
                    amount: withdraw_fee,
                },
            ),
        )
    }

    /// Rewrites the record in the record account with the cancellation
    /// flag `canceled`. Where it fails, no account changes.
    pub fn process_cancel(program_id: &Address, canceled: u8, accounts: &mut [LoadedAccount]) -> (done:
        Result<(), Fault>)
        ensures
            accounts_are(
                done,
                account_views(old(accounts)@),
                account_views(final(accounts)@),
                spec_cancel(canceled, account_views(old(accounts)@)),
            ),
    {
        if accounts.len() < 1 {
            assert(account_views(accounts@) =~= account_views(old(accounts)@));
            return Err(Fault::NotEnoughAccountKeys);
        }
        let done = Self::cancel_record(accounts[0].data.as_mut_slice(), canceled);
        proof {
            let before = account_views(old(accounts)@);
            let after = account_views(accounts@);
            if done is Ok {
                assert(after =~= spec_with_record(before, accounts@[0].data@));
            } else {
                assert(after =~= before);
            }
        }
        done
    }

    /// Rewrites the record in `record` with the cancellation flag
    /// `canceled`, whatever its value, and with every other field as it
    /// was. Where the buffer holds no record, it fails and leaves the
    /// buffer as it was.
    pub fn cancel_record(record: &mut [u8], canceled: u8) -> (done: Result<(), Fault>)
        ensures
            record_is(done, old(record)@, final(record)@, spec_cancel_record(old(record)@, canceled)),
    {
        let auction = AuctionVersion::unpack(record)?;
        let obj = AuctionVersion::AuctionV1(
            AuctionV1 {
                is_initialized: auction.is_initialized(),
                token_program_id: *auction.token_program_id(),
                token: *auction.token_account(),
                pool: *auction.pool(),
                fee_account: *auction.fee_account(),
                fees: *auction.fees(),
                nonce: auction.nonce(),
                start_timestamp: auction.start_timestamp(),
                end_timestamp: auction.end_timestamp(),
                canceled,
            },
        );
        AuctionVersion::pack(obj, record)?;
        Ok(())
    }

    /// Decodes an instruction and runs its command on the accounts. Where
    /// it fails, no account changes.
    pub fn process(program_id: &Address, accounts: &mut [LoadedAccount], input: &[u8]) -> (outcome:
        Result<Outcome, Fault>)
        ensures
            match spec_process(account_views(old(accounts)@), input@) {
                Err(fault) => outcome matches Err(found) && found == fault && account_views(
                    final(accounts)@,
                ) == account_views(old(accounts)@),
                Ok(effects) => outcome matches Ok(made) && made@ == effects.outcome
                    && account_views(final(accounts)@) == match effects.record {
                    None => account_views(old(accounts)@),
                    Some(record) => spec_with_record(account_views(old(accounts)@), record),
                },
            },
    {
        let instruction = AuctionInstruction::unpack(input)?;
        match instruction {
            AuctionInstruction::Initialize(
                InitializeData { fees, nonce, start_timestamp, end_timestamp },
            ) => {
                Self::process_initialize(
                    program_id,
                    fees,
                    nonce,
                    start_timestamp,
                    end_timestamp,
                    accounts,
                )?;
                Ok(Self::quiet())
            },
            AuctionInstruction::PlaceBid(PlaceBid { bid_amount }) => {
                Self::process_place_bid(program_id, bid_amount, accounts)
            },
            AuctionInstruction::Withdraw(Withdraw { bid_amount }) => {
                Self::process_withdraw(program_id, bid_amount, accounts)
            },
            AuctionInstruction::Cancel(Cancel { canceled }) => {
                Self::process_cancel(program_id, canceled, accounts)?;
                Ok(Self::quiet())
            },
        }
    }

    /// The outcome of a command that asks for no transfer.
    fn quiet() -> (outcome: Outcome)
        ensures
            outcome@ == spec_quiet(),
    {
        let outcome = Outcome { refusal: None, transfers: Vec::new() };
        assert(outcome@.transfers =~= Seq::empty());
        outcome
    }
}

} // verus!
