//! What the commands decide, on plain values: the transfers a command
//! asks for, what it leaves in the record, and the laws that hold of
//! commands one after another.

use crate::account::{Instruction, InstructionView, LoadedAccountView};
use crate::address::Address;
use crate::error::{AuctionError, Fault};
use crate::fees::{spec_calculate_fee, AuctionFees};
use crate::instruction::{AuctionInstruction, UnixTimestamp};
use crate::ledger::{clock_timestamp, spec_token_program_id, spec_transfer_instruction};
use crate::state::{AuctionV1, AuctionVersion};
use vstd::prelude::*;

verus! {

/// A movement of tokens that a command asks the ledger for.
#[derive(Clone, Copy, Debug, PartialEq, Eq)]
pub struct TransferRequest {
    /// The account that is debited.
    pub source: Address,
    /// The account that is credited.
    pub destination: Address,
    /// The account on whose word the tokens move.
    pub authority: Address,
    /// The nonce of the auction, under which the program signs.
    pub nonce: u8,
    /// The number of tokens.
    pub amount: u64,
}

/// A transfer made ready for the token program: the request, the
/// instruction that carries it, and the auction whose address and nonce
/// are the seeds of the program's signature.
#[derive(Debug)]
pub struct TransferCall {
    pub auction: Address,
    pub request: TransferRequest,
    pub instruction: Instruction,
}

/// A transfer call as plain values.
pub struct TransferCallView {
    pub auction: Address,
    pub request: TransferRequest,
    pub instruction: InstructionView,
}

impl View for TransferCall {
    type V = TransferCallView;

    open spec fn view(&self) -> TransferCallView {
        TransferCallView {
            auction: self.auction,
            request: self.request,
            instruction: self.instruction@,
        }
    }
}

/// Why a bid moves no funds.
#[derive(Clone, Copy, Debug, PartialEq, Eq, Structural)]
pub enum BidRefusal {
    /// The auction has ended.
    Ended,
    /// The auction has not started yet.
    NotStarted,
    /// The auction was canceled.
    Canceled,
}

/// What a command that succeeded leaves to be done.
#[derive(Debug)]
pub struct Outcome {
    /// Why a bid moved no funds; `None` for an accepted bid and for every
    /// other command.
    pub refusal: Option<BidRefusal>,
    /// The transfers to invoke, in this order.
    pub transfers: Vec<TransferCall>,
}

/// An outcome as plain values.
pub struct OutcomeView {
    pub refusal: Option<BidRefusal>,
    pub transfers: Seq<TransferCallView>,
}

impl View for Outcome {
    type V = OutcomeView;

    open spec fn view(&self) -> OutcomeView {
        OutcomeView {
            refusal: self.refusal,
            transfers: Seq::new(self.transfers@.len(), |i: int| self.transfers@[i]@),
        }
    }
}

/// The call that `token_transfer` makes ready.
pub open spec fn spec_transfer_call(
    auction: Address,
    token_program: Address,
    request: TransferRequest,
) -> TransferCallView {
    TransferCallView {
        auction,
        request,
        instruction: spec_transfer_instruction(
            token_program,
            request.source,
            request.destination,
            request.authority,
            request.amount,
        ),
    }
}

/// Why a bid at the time `now` moves no funds: the auction is over, or has
/// not begun, or is canceled, in this order; `None` where the bid is
/// taken.
pub open spec fn spec_bid_refusal(record: AuctionV1, now: UnixTimestamp) -> Option<BidRefusal> {
    if now > record.end_timestamp {
        Some(BidRefusal::Ended)
    } else if now < record.start_timestamp {
        Some(BidRefusal::NotStarted)
    } else if record.canceled == 1 {
        Some(BidRefusal::Canceled)
    } else {
        None
    }
}

/// The fee that a withdrawal of `bid_amount` owes, in the ledger's width:
/// a fault where the fee cannot be computed, and another where it does not
/// fit 64 bits.
pub open spec fn spec_withdraw_fee(fees: AuctionFees, bid_amount: u64) -> Result<u64, Fault> {
    match spec_calculate_fee(
        bid_amount as u128,
        fees.auction_fee_numerator as u128,
        fees.auction_fee_denominator as u128,
    ) {
        None => Err(Fault::Custom(AuctionError::FeeCalculationFailure)),
        Some(fee) => if fee <= u64::MAX {
            Ok(fee as u64)
        } else {
            Err(Fault::Custom(AuctionError::ConversionFailure))
        },
    }
}

/// The two movements of a withdrawal of `bid_amount` with the fee `fee`:
/// the amount from the pool to the destination, then the fee from the pool
/// to the fee account.
pub open spec fn spec_withdraw_requests(
    record: AuctionV1,
    bid_amount: u64,
    fee: u64,
    pool: Address,
    destination: Address,
    fee_account: Address,
    authority: Address,
) -> (TransferRequest, TransferRequest) {
    (
        TransferRequest {
            source: pool,
            destination,
            authority,
            nonce: record.nonce,
            amount: bid_amount,
        },
        TransferRequest {
            source: pool,
            destination: fee_account,
            authority,
            nonce: record.nonce,
            amount: fee,
        },
    )
}

/// What a bid on the decoded record leads to: nothing to do where the bid
/// is refused, a fault where the bid is taken but `token_program` is not
/// the token program, and otherwise the one transfer of the bid.
pub open spec fn spec_bid_outcome(
    record: AuctionV1,
    now: UnixTimestamp,
    bid_amount: u64,
    auction: Address,
    token_program: Address,
    deposit: Address,
    pool: Address,
    authority: Address,
) -> Result<OutcomeView, Fault> {
    match spec_bid_refusal(record, now) {
        Some(refusal) => Ok(OutcomeView { refusal: Some(refusal), transfers: Seq::empty() }),
        None => if token_program@ != spec_token_program_id() {
            Err(Fault::IncorrectProgramId)
        } else {
            Ok(
                OutcomeView {
                    refusal: None,
                    transfers: seq![
                        spec_transfer_call(
                            auction,
                            token_program,
                            TransferRequest {
                                source: deposit,
                                destination: pool,
                                authority,
                                nonce: record.nonce,
                                amount: bid_amount,
                            },
                        ),
                    ],
                },
            )
        },
    }
}

/// What a withdrawal from the decoded record leads to: a fault where the
/// fee fails or `token_program` is not the token program, and otherwise
/// the transfer of the amount followed by the transfer of the fee.
pub open spec fn spec_withdraw_outcome(
    record: AuctionV1,
    bid_amount: u64,
    auction: Address,
    token_program: Address,
    pool: Address,
    destination: Address,
    fee_account: Address,
    authority: Address,
) -> Result<OutcomeView, Fault> {
    match spec_withdraw_fee(record.fees, bid_amount) {
        Err(fault) => Err(fault),
        Ok(fee) => if token_program@ != spec_token_program_id() {
            Err(Fault::IncorrectProgramId)
        } else {
            let requests = spec_withdraw_requests(
                record,
                bid_amount,
                fee,
                pool,
                destination,
                fee_account,
                authority,
            );
            Ok(
                OutcomeView {
                    refusal: None,
                    transfers: seq![
                        spec_transfer_call(auction, token_program, requests.0),
                        spec_transfer_call(auction, token_program, requests.1),
                    ],
                },
            )
        },
    }
}

/// What `place_bid_at` returns on the record buffer `record`.
pub open spec fn spec_place_bid_at(
    record: Seq<u8>,
    now: UnixTimestamp,
    bid_amount: u64,
    auction: Address,
    token_program: Address,
    deposit: Address,
    pool: Address,
    authority: Address,
) -> Result<OutcomeView, Fault> {
    match AuctionVersion::spec_unpack(record) {
        None => Err(Fault::InvalidAccountData),
        Some(decoded) => spec_bid_outcome(
            decoded.record(),
            now,
            bid_amount,
            auction,
            token_program,
            deposit,
            pool,
            authority,
        ),
    }
}

/// What `withdraw_from` returns on the record buffer `record`.
pub open spec fn spec_withdraw_from(
    record: Seq<u8>,
    bid_amount: u64,
    auction: Address,
    token_program: Address,
    pool: Address,
    destination: Address,
    fee_account: Address,
    authority: Address,
) -> Result<OutcomeView, Fault> {
    match AuctionVersion::spec_unpack(record) {
        None => Err(Fault::InvalidAccountData),
        Some(decoded) => spec_withdraw_outcome(
            decoded.record(),
            bid_amount,
            auction,
            token_program,
            pool,
            destination,
            fee_account,
            authority,
        ),
    }
}

/// The record that a new auction starts with: initialized, and not
/// canceled.
pub open spec fn spec_new_record(
    fees: AuctionFees,
    nonce: u8,
    start_timestamp: UnixTimestamp,
    end_timestamp: UnixTimestamp,
    token_program_id: Address,
    token: Address,
    pool: Address,
    fee_account: Address,
) -> AuctionVersion {
    AuctionVersion::AuctionV1(
        AuctionV1 {
            is_initialized: true,
            token_program_id,
            token,
            pool,
            fee_account,
            fees,
            nonce,
            start_timestamp,
            end_timestamp,
            canceled: 0,
        },
    )
}

/// The bytes that `initialize_record` leaves in the record buffer
/// `record`, or the fault it ends in: the buffer must not hold an
/// initialized record, the fee schedule must be acceptable, and the buffer
/// must have the length of a record.
pub open spec fn spec_initialize_record(
    record: Seq<u8>,
    fees: AuctionFees,
    nonce: u8,
    start_timestamp: UnixTimestamp,
    end_timestamp: UnixTimestamp,
    token_program_id: Address,
    token: Address,
    pool: Address,
    fee_account: Address,
) -> Result<Seq<u8>, Fault> {
    if AuctionVersion::spec_is_initialized(record) {
        Err(Fault::Custom(AuctionError::AlreadyInUse))
    } else if !fees.spec_valid() {
        Err(Fault::Custom(AuctionError::InvalidFee))
    } else if record.len() != 290 {
        Err(Fault::InvalidAccountData)
    } else {
        Ok(
            spec_new_record(
                fees,
                nonce,
                start_timestamp,
                end_timestamp,
                token_program_id,
                token,
                pool,
                fee_account,
            ).spec_pack(record),
        )
    }
}

/// A record with another cancellation flag.
pub open spec fn spec_with_canceled(auction: AuctionVersion, canceled: u8) -> AuctionVersion {
    AuctionVersion::AuctionV1(AuctionV1 { canceled, ..auction.record() })
}

/// The bytes that `cancel_record` leaves in the record buffer `record`, or
/// the fault it ends in.
pub open spec fn spec_cancel_record(record: Seq<u8>, canceled: u8) -> Result<Seq<u8>, Fault> {
    match AuctionVersion::spec_unpack(record) {
        None => Err(Fault::InvalidAccountData),
        Some(auction) => Ok(spec_with_canceled(auction, canceled).spec_pack(record)),
    }
}

/// What `process_initialize` does to the record account. The accounts are,
/// by position: the auction record, the owner's token account, the pool
/// account, the fee account, the token program.
pub open spec fn spec_initialize(
    fees: AuctionFees,
    nonce: u8,
    start_timestamp: UnixTimestamp,
    end_timestamp: UnixTimestamp,
    accounts: Seq<LoadedAccountView>,
) -> Result<Seq<u8>, Fault> {
    if accounts.len() < 5 {
        Err(Fault::NotEnoughAccountKeys)
    } else {
        spec_initialize_record(
            accounts[0].data,
            fees,
            nonce,
            start_timestamp,
            end_timestamp,
            accounts[4].key,
            accounts[1].key,
            accounts[2].key,
            accounts[3].key,
        )
    }
}

/// What `process_place_bid` returns. The accounts are, by position: the
/// auction record, the bidder's token account, the pool account, the token
/// program, the transfer authority, the clock. The clock is read before
/// the record.
pub open spec fn spec_place_bid(bid_amount: u64, accounts: Seq<LoadedAccountView>) -> Result<
    OutcomeView,
    Fault,
> {
    if accounts.len() < 6 {
        Err(Fault::NotEnoughAccountKeys)
    } else {
        match clock_timestamp(accounts[5].key@, accounts[5].data) {
            None => Err(Fault::InvalidArgument),
            Some(now) => spec_place_bid_at(
                accounts[0].data,
                now,
                bid_amount,
                accounts[0].key,
                accounts[3].key,
                accounts[1].key,
                accounts[2].key,
                accounts[4].key,
            ),
        }
    }
}

/// What `process_withdraw` returns. The accounts are, by position: the
/// auction record, the pool account, the account to credit, the fee
/// account, the token program, the transfer authority.
pub open spec fn spec_withdraw(bid_amount: u64, accounts: Seq<LoadedAccountView>) -> Result<
    OutcomeView,
    Fault,
> {
    if accounts.len() < 6 {
        Err(Fault::NotEnoughAccountKeys)
    } else {
        spec_withdraw_from(
            accounts[0].data,
            bid_amount,
            accounts[0].key,
            accounts[4].key,
            accounts[1].key,
            accounts[2].key,
            accounts[3].key,
            accounts[5].key,
        )
    }
}

/// What `process_cancel` does to the record account, which is the first
/// account.
pub open spec fn spec_cancel(canceled: u8, accounts: Seq<LoadedAccountView>) -> Result<
    Seq<u8>,
    Fault,
> {
    if accounts.len() < 1 {
        Err(Fault::NotEnoughAccountKeys)
    } else {
        spec_cancel_record(accounts[0].data, canceled)
    }
}

/// The accounts after the data of the first was replaced by `record`.
pub open spec fn spec_with_record(accounts: Seq<LoadedAccountView>, record: Seq<u8>) -> Seq<
    LoadedAccountView,
> {
    accounts.update(0, LoadedAccountView { data: record, ..accounts[0] })
}

/// Whether a command returned what `expected` says.
pub open spec fn outcome_is(
    outcome: Result<Outcome, Fault>,
    expected: Result<OutcomeView, Fault>,
) -> bool {
    match expected {
        Ok(view) => outcome matches Ok(made) && made@ == view,
        Err(fault) => outcome matches Err(found) && found == fault,
    }
}

/// Whether a command that may rewrite the record did what `expected`
/// says: it wrote the bytes and returned, or it failed and wrote nothing.
pub open spec fn record_is(
    done: Result<(), Fault>,
    before: Seq<u8>,
    after: Seq<u8>,
    expected: Result<Seq<u8>, Fault>,
) -> bool {
    match expected {
        Ok(record) => done is Ok && after == record,
        Err(fault) => done == Err::<(), Fault>(fault) && after == before,
    }
}

/// Whether a command that may rewrite the record account did what
/// `expected` says: it rewrote the data of the first account and left the
/// rest, or it failed and left every account.
pub open spec fn accounts_are(
    done: Result<(), Fault>,
    before: Seq<LoadedAccountView>,
    after: Seq<LoadedAccountView>,
    expected: Result<Seq<u8>, Fault>,
) -> bool {
    match expected {
        Ok(record) => done is Ok && after == spec_with_record(before, record),
        Err(fault) => done == Err::<(), Fault>(fault) && after == before,
    }
}

/// What a command changes: the transfers it asks for, and the bytes it
/// leaves in the record account where it rewrites the record.
pub struct Effects {
    pub outcome: OutcomeView,
    pub record: Option<Seq<u8>>,
}

/// The outcome of a command that asks for no transfer.
pub open spec fn spec_quiet() -> OutcomeView {
    OutcomeView { refusal: None, transfers: Seq::empty() }
}

/// What `process` does with the instruction bytes `input` on `accounts`.
pub open spec fn spec_process(accounts: Seq<LoadedAccountView>, input: Seq<u8>) -> Result<
    Effects,
    Fault,
> {
    match AuctionInstruction::spec_unpack(input) {
        None => Err(Fault::Custom(AuctionError::InvalidInstruction)),
        Some(AuctionInstruction::Initialize(data)) => match spec_initialize(
            data.fees,
            data.nonce,
            data.start_timestamp,
            data.end_timestamp,
            accounts,
        ) {
            Ok(record) => Ok(Effects { outcome: spec_quiet(), record: Some(record) }),
            Err(fault) => Err(fault),
        },
        Some(AuctionInstruction::PlaceBid(bid)) => match spec_place_bid(
            bid.bid_amount,
            accounts,
        ) {
            Ok(outcome) => Ok(Effects { outcome, record: None }),
            Err(fault) => Err(fault),
        },
        Some(AuctionInstruction::Withdraw(withdrawal)) => match spec_withdraw(
            withdrawal.bid_amount,
            accounts,
        ) {
            Ok(outcome) => Ok(Effects { outcome, record: None }),
            Err(fault) => Err(fault),
        },
        Some(AuctionInstruction::Cancel(cancel)) => match spec_cancel(cancel.canceled, accounts) {
            Ok(record) => Ok(Effects { outcome: spec_quiet(), record: Some(record) }),
            Err(fault) => Err(fault),
        },
    }
}

/// A buffer that holds an initialized record is never initialized again,
/// whatever else it holds and whatever is asked for.
pub proof fn lemma_initialize_in_use(
    record: Seq<u8>,
    fees: AuctionFees,
    nonce: u8,
    start_timestamp: UnixTimestamp,
    end_timestamp: UnixTimestamp,
    token_program_id: Address,
    token: Address,
    pool: Address,
    fee_account: Address,
)
    requires
        AuctionVersion::spec_is_initialized(record),
    ensures
        spec_initialize_record(
            record,
            fees,
            nonce,
            start_timestamp,
            end_timestamp,
            token_program_id,
            token,
            pool,
            fee_account,
        ) == Err::<Seq<u8>, Fault>(Fault::Custom(AuctionError::AlreadyInUse)),
{
}

/// What a successful initialization leaves in the buffer decodes as the
/// new record, which is initialized and not canceled; so a second
/// initialization of the buffer fails.
pub proof fn lemma_initialize_then(
    record: Seq<u8>,
    fees: AuctionFees,
    nonce: u8,
    start_timestamp: UnixTimestamp,
    end_timestamp: UnixTimestamp,
    token_program_id: Address,
    token: Address,
    pool: Address,
    fee_account: Address,
)
    requires
        spec_initialize_record(
            record,
            fees,
            nonce,
            start_timestamp,
            end_timestamp,
            token_program_id,
            token,
            pool,
            fee_account,
        ) is Ok,
    ensures
        ({
            let written = spec_initialize_record(
                record,
                fees,
                nonce,
                start_timestamp,
                end_timestamp,
                token_program_id,
                token,
                pool,
                fee_account,
            ).unwrap();
            &&& AuctionVersion::spec_unpack(written) == Some(
                spec_new_record(
                    fees,
                    nonce,
                    start_timestamp,
                    end_timestamp,
                    token_program_id,
                    token,
                    pool,
                    fee_account,
                ),
            )
            &&& AuctionVersion::spec_is_initialized(written)
            &&& forall|
                fees2: AuctionFees,
                nonce2: u8,
                start2: UnixTimestamp,
                end2: UnixTimestamp,
                a: Address,
                b: Address,
                c: Address,
                d: Address,
            | #[trigger]
                spec_initialize_record(written, fees2, nonce2, start2, end2, a, b, c, d) == Err::<
                    Seq<u8>,
                    Fault,
                >(Fault::Custom(AuctionError::AlreadyInUse))
        }),
{
    spec_new_record(
        fees,
        nonce,
        start_timestamp,
        end_timestamp,
        token_program_id,
        token,
        pool,
        fee_account,
    ).lemma_unpack_pack(record);
}

/// What a successful cancellation leaves in the buffer decodes as the
/// record that was there, with the flag that was given and nothing else
/// changed.
pub proof fn lemma_cancel_then(record: Seq<u8>, canceled: u8)
    requires
        spec_cancel_record(record, canceled) is Ok,
    ensures
        AuctionVersion::spec_unpack(spec_cancel_record(record, canceled).unwrap()) == Some(
            spec_with_canceled(AuctionVersion::spec_unpack(record).unwrap(), canceled),
        ),
{
    spec_with_canceled(AuctionVersion::spec_unpack(record).unwrap(), canceled).lemma_unpack_pack(
        record,
    );
}

/// Only the commands that create an auction and that set its flag rewrite
/// the record; a bid and a withdrawal leave every account as it was.
pub proof fn lemma_who_writes(accounts: Seq<LoadedAccountView>, input: Seq<u8>)
    requires
        spec_process(accounts, input) is Ok,
    ensures
        spec_process(accounts, input).unwrap().record is Some <==> (AuctionInstruction::spec_unpack(
            input,
        ).unwrap() is Initialize || AuctionInstruction::spec_unpack(input).unwrap() is Cancel),
        spec_process(accounts, input).unwrap().outcome.transfers.len() > 0
            ==> AuctionInstruction::spec_unpack(input).unwrap() is PlaceBid
            || AuctionInstruction::spec_unpack(input).unwrap() is Withdraw,
{
}

/// A bid on a record that was canceled with the flag 1 moves no funds,
/// whenever it comes, and still succeeds; inside the window the reason
/// given is the cancellation.
pub proof fn lemma_bid_after_cancel(
    record: Seq<u8>,
    now: UnixTimestamp,
    bid_amount: u64,
    auction: Address,
    token_program: Address,
    deposit: Address,
    pool: Address,
    authority: Address,
)
    requires
        spec_cancel_record(record, 1) is Ok,
    ensures
        ({
            let outcome = spec_place_bid_at(
                spec_cancel_record(record, 1).unwrap(),
                now,
                bid_amount,
                auction,
                token_program,
                deposit,
                pool,
                authority,
            );
            let before = AuctionVersion::spec_unpack(record).unwrap().record();
            &&& outcome is Ok
            &&& outcome.unwrap().transfers.len() == 0
            &&& outcome.unwrap().refusal is Some
            &&& before.start_timestamp <= now <= before.end_timestamp ==> outcome.unwrap().refusal
                == Some(BidRefusal::Canceled)
        }),
{
    lemma_cancel_then(record, 1);
}

/// A bid moves funds exactly when it comes inside the window of an
/// auction that is not canceled with the flag 1; then it moves the amount
/// that was bid, once.
pub proof fn lemma_bid_moves_funds_iff(
    record: AuctionV1,
    now: UnixTimestamp,
    bid_amount: u64,
    auction: Address,
    token_program: Address,
    deposit: Address,
    pool: Address,
    authority: Address,
)
    requires
        token_program@ == spec_token_program_id(),
    ensures
        ({
            let outcome = spec_bid_outcome(
                record,
                now,
                bid_amount,
                auction,
                token_program,
                deposit,
                pool,
                authority,
            );
            let open = record.start_timestamp <= now <= record.end_timestamp && record.canceled
                != 1;
            &&& outcome is Ok
            &&& open ==> outcome.unwrap().transfers.len() == 1
                && outcome.unwrap().transfers[0].request.amount == bid_amount
            &&& !open ==> outcome.unwrap().transfers.len() == 0
        }),
{
}

/// Under an acceptable fee schedule the fee of a withdrawal can always be
/// computed, fits the ledger's width, and is no more than the amount
/// withdrawn.
pub proof fn lemma_withdraw_fee_bounded(fees: AuctionFees, bid_amount: u64)
    requires
        fees.spec_valid(),
    ensures
        spec_withdraw_fee(fees, bid_amount) matches Ok(fee) && fee <= bid_amount,
{
    let amount = bid_amount as nat;
    let numerator = fees.auction_fee_numerator as nat;
    let denominator = fees.auction_fee_denominator as nat;
    if numerator != 0 && amount != 0 {
        assert(amount * numerator <= amount * denominator) by (nonlinear_arith)
            requires
                numerator <= denominator,
        ;
        assert(amount * numerator <= u128::MAX) by (nonlinear_arith)
            requires
                amount <= u64::MAX,
                numerator <= u64::MAX,
        ;
        vstd::arithmetic::div_mod::lemma_div_is_ordered(
            (amount * numerator) as int,
            (amount * denominator) as int,
            denominator as int,
        );
        vstd::arithmetic::div_mod::lemma_div_multiples_vanish(amount as int, denominator as int);
        assert(amount * denominator == denominator * amount) by (nonlinear_arith);
    }
}

} // verus!
