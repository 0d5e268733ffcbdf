use auction::account::LoadedAccount;
use auction::address::Address;
use auction::error::{AuctionError, Fault};
use auction::fees::AuctionFees;
use auction::instruction::{AuctionInstruction, Cancel, InitializeData, PlaceBid, Withdraw};
use auction::processor::Processor;
use auction::transition::{BidRefusal, Outcome, TransferRequest};
use auction::state::{AuctionState, AuctionV1, AuctionVersion};

const AUCTION: u8 = 0x10;
const OWNER_TOKEN: u8 = 0x11;
const POOL: u8 = 0x12;
const FEE: u8 = 0x13;
const BIDDER: u8 = 0x14;
const AUTHORITY: u8 = 0x15;
const DESTINATION: u8 = 0x16;

fn key(byte: u8) -> Address {
    Address { bytes: [byte; 32] }
}

fn token_program() -> Address {
    Address { bytes: spl_token::id().to_bytes() }
}

fn clock_id() -> Address {
    Address { bytes: solana_program::sysvar::clock::id().to_bytes() }
}

fn account(key: Address, data: Vec<u8>) -> LoadedAccount {
    LoadedAccount { key, owner: Address { bytes: [0; 32] }, data }
}

fn plain(byte: u8) -> LoadedAccount {
    account(key(byte), vec![])
}

fn clock(now: i64) -> LoadedAccount {
    let mut data = vec![0u8; 40];
    data[0..8].copy_from_slice(&77u64.to_le_bytes());
    data[8..16].copy_from_slice(&5i64.to_le_bytes());
    data[16..24].copy_from_slice(&3u64.to_le_bytes());
    data[24..32].copy_from_slice(&4u64.to_le_bytes());
    data[32..40].copy_from_slice(&now.to_le_bytes());
    account(clock_id(), data)
}

fn initialize_accounts(record: Vec<u8>) -> Vec<LoadedAccount> {
    vec![
        account(key(AUCTION), record),
        plain(OWNER_TOKEN),
        plain(POOL),
        plain(FEE),
        account(token_program(), vec![]),
    ]
}

fn bid_accounts(record: Vec<u8>, now: i64) -> Vec<LoadedAccount> {
    vec![
        account(key(AUCTION), record),
        plain(BIDDER),
        plain(POOL),
        account(token_program(), vec![]),
        plain(AUTHORITY),
        clock(now),
    ]
}

fn withdraw_accounts(record: Vec<u8>) -> Vec<LoadedAccount> {
    vec![
        account(key(AUCTION), record),
        plain(POOL),
        plain(DESTINATION),
        plain(FEE),
        account(token_program(), vec![]),
        plain(AUTHORITY),
    ]
}

fn fees(numerator: u64, denominator: u64) -> AuctionFees {
    AuctionFees { auction_fee_numerator: numerator, auction_fee_denominator: denominator }
}

fn initialized(fees: AuctionFees, nonce: u8, start: i64, end: i64) -> Vec<u8> {
    let mut accounts = initialize_accounts(vec![0u8; 290]);
    let input = AuctionInstruction::Initialize(InitializeData {
        fees,
        nonce,
        start_timestamp: start,
        end_timestamp: end,
    })
    .pack();
    let outcome = Processor::process(&key(1), &mut accounts, &input).unwrap();
    assert!(outcome.refusal.is_none());
    assert!(outcome.transfers.is_empty());
    accounts.remove(0).data
}

fn datas(accounts: &[LoadedAccount]) -> Vec<Vec<u8>> {
    accounts.iter().map(|a| a.data.clone()).collect()
}

fn requests(outcome: &Outcome) -> Vec<TransferRequest> {
    outcome.transfers.iter().map(|call| call.request).collect()
}

fn raw_record(record: AuctionV1) -> Vec<u8> {
    let mut buffer = vec![0u8; 290];
    AuctionVersion::pack(AuctionVersion::AuctionV1(record), &mut buffer).unwrap();
    buffer
}

#[test]
fn initialize_writes_an_active_record() {
    let record = initialized(fees(1, 100), 9, 100, 200);
    let decoded = AuctionVersion::unpack(&record).unwrap();
    assert_eq!(
        decoded,
        AuctionVersion::AuctionV1(AuctionV1 {
            is_initialized: true,
            token_program_id: token_program(),
            token: key(OWNER_TOKEN),
            pool: key(POOL),
            fee_account: key(FEE),
            fees: fees(1, 100),
            nonce: 9,
            start_timestamp: 100,
            end_timestamp: 200,
            canceled: 0,
        })
    );
    assert!(AuctionVersion::is_initialized(&record));
}

#[test]
fn initialize_enforces_no_order_of_the_window() {
    let record = initialized(fees(0, 0), 0, 500, -500);
    let decoded = AuctionVersion::unpack(&record).unwrap();
    assert_eq!(decoded.start_timestamp(), 500);
    assert_eq!(decoded.end_timestamp(), -500);
}

#[test]
fn initialize_refuses_a_record_in_use() {
    let record = initialized(fees(0, 0), 1, 100, 200);
    for other in [fees(0, 0), fees(1, 2), fees(5, 5), fees(9, 0)] {
        let mut accounts = initialize_accounts(record.clone());
        let done = Processor::process_initialize(&key(1), other, 77, -1, 1, &mut accounts);
        assert_eq!(done, Err(Fault::Custom(AuctionError::AlreadyInUse)));
        assert_eq!(accounts[0].data, record);
    }
    let mut junk = record.clone();
    for byte in junk[2..].iter_mut() {
        *byte = 0xFF;
    }
    let mut accounts = initialize_accounts(junk.clone());
    let done = Processor::process_initialize(&key(1), fees(0, 0), 0, 0, 0, &mut accounts);
    assert_eq!(done, Err(Fault::Custom(AuctionError::AlreadyInUse)));
    assert_eq!(accounts[0].data, junk);
}

#[test]
fn initialize_refuses_a_bad_fee_schedule() {
    for bad in [fees(1, 1), fees(2, 1), fees(1, 0)] {
        let mut accounts = initialize_accounts(vec![0u8; 290]);
        let done = Processor::process_initialize(&key(1), bad, 0, 0, 0, &mut accounts);
        assert_eq!(done, Err(Fault::Custom(AuctionError::InvalidFee)));
        assert_eq!(accounts[0].data, vec![0u8; 290]);
    }
}

#[test]
fn initialize_refuses_a_buffer_of_another_length() {
    for len in [0usize, 1, 289, 291, 324] {
        let mut accounts = initialize_accounts(vec![0u8; len]);
        let done = Processor::process_initialize(&key(1), fees(0, 0), 0, 0, 0, &mut accounts);
        assert_eq!(done, Err(Fault::InvalidAccountData));
        assert_eq!(accounts[0].data, vec![0u8; len]);
    }
}

#[test]
fn initialize_overwrites_an_uninitialized_record() {
    let mut record = initialized(fees(0, 0), 1, 100, 200);
    record[1] = 0;
    let mut accounts = initialize_accounts(record);
    let done = Processor::process_initialize(&key(1), fees(1, 4), 2, 3, 4, &mut accounts);
    assert_eq!(done, Ok(()));
    let decoded = AuctionVersion::unpack(&accounts[0].data).unwrap();
    assert!(AuctionState::is_initialized(&decoded));
    assert_eq!(decoded.nonce(), 2);
    assert_eq!(*decoded.fees(), fees(1, 4));
}

#[test]
fn commands_want_their_accounts() {
    let record = initialized(fees(0, 0), 1, 100, 200);
    let mut four = initialize_accounts(vec![0u8; 290]);
    four.pop();
    assert_eq!(
        Processor::process_initialize(&key(1), fees(0, 0), 0, 0, 0, &mut four),
        Err(Fault::NotEnoughAccountKeys)
    );
    let mut five = bid_accounts(record.clone(), 150);
    five.pop();
    assert_eq!(
        Processor::process_place_bid(&key(1), 1, &five).unwrap_err(),
        Fault::NotEnoughAccountKeys
    );
    let mut short = withdraw_accounts(record.clone());
    short.pop();
    assert_eq!(
        Processor::process_withdraw(&key(1), 1, &short).unwrap_err(),
        Fault::NotEnoughAccountKeys
    );
    let mut none: Vec<LoadedAccount> = vec![];
    assert_eq!(Processor::process_cancel(&key(1), 1, &mut none), Err(Fault::NotEnoughAccountKeys));
}

#[test]
fn scenario_bid_inside_the_window() {
    let record = initialized(fees(0, 0), 9, 100, 200);
    let mut accounts = bid_accounts(record.clone(), 150);
    let input = AuctionInstruction::PlaceBid(PlaceBid { bid_amount: 1_000 }).pack();
    let outcome = Processor::process(&key(1), &mut accounts, &input).unwrap();
    assert_eq!(outcome.refusal, None);
    assert_eq!(
        requests(&outcome),
        vec![TransferRequest {
            source: key(BIDDER),
            destination: key(POOL),
            authority: key(AUTHORITY),
            nonce: 9,
            amount: 1_000,
        }]
    );
    assert_eq!(outcome.transfers[0].auction, key(AUCTION));
    assert_eq!(accounts[0].data, record);
}

#[test]
fn bid_at_the_edges_of_the_window() {
    let record = initialized(fees(0, 0), 9, 100, 200);
    for now in [100i64, 200] {
        let outcome =
            Processor::process_place_bid(&key(1), 5, &bid_accounts(record.clone(), now)).unwrap();
        assert_eq!(outcome.refusal, None);
        assert_eq!(outcome.transfers.len(), 1);
    }
}

#[test]
fn scenario_bid_before_the_start() {
    let record = initialized(fees(0, 0), 9, 100, 200);
    let mut accounts = bid_accounts(record.clone(), 50);
    let input = AuctionInstruction::PlaceBid(PlaceBid { bid_amount: 1_000 }).pack();
    let outcome = Processor::process(&key(1), &mut accounts, &input).unwrap();
    assert_eq!(outcome.refusal, Some(BidRefusal::NotStarted));
    assert!(outcome.transfers.is_empty());
    assert_eq!(accounts[0].data, record);
}

#[test]
fn bid_after_the_end() {
    let record = initialized(fees(0, 0), 9, 100, 200);
    let outcome =
        Processor::process_place_bid(&key(1), 1_000, &bid_accounts(record, 201)).unwrap();
    assert_eq!(outcome.refusal, Some(BidRefusal::Ended));
    assert!(outcome.transfers.is_empty());
}

#[test]
fn scenario_bid_on_a_canceled_auction() {
    let record = initialized(fees(0, 0), 9, 100, 200);
    let mut accounts = vec![account(key(AUCTION), record)];
    let input = AuctionInstruction::Cancel(Cancel { canceled: 1 }).pack();
    let outcome = Processor::process(&key(1), &mut accounts, &input).unwrap();
    assert!(outcome.transfers.is_empty());
    let canceled = accounts.remove(0).data;
    assert_eq!(AuctionVersion::unpack(&canceled).unwrap().canceled(), 1);

    let mut accounts = bid_accounts(canceled, 150);
    let input = AuctionInstruction::PlaceBid(PlaceBid { bid_amount: 1_000 }).pack();
    let outcome = Processor::process(&key(1), &mut accounts, &input).unwrap();
    assert_eq!(outcome.refusal, Some(BidRefusal::Canceled));
    assert!(outcome.transfers.is_empty());
}

#[test]
fn refusals_come_in_their_order() {
    let mut record = AuctionV1::default();
    record.is_initialized = true;
    record.start_timestamp = 100;
    record.end_timestamp = 50;
    record.canceled = 1;
    let auction = AuctionVersion::AuctionV1(record);
    let decide = |now: i64| {
        Processor::decide_bid(&auction, now, 1, &key(BIDDER), &key(POOL), &key(AUTHORITY))
    };
    assert_eq!(decide(75), Err(BidRefusal::Ended));
    assert_eq!(decide(40), Err(BidRefusal::NotStarted));
    assert_eq!(decide(50), Err(BidRefusal::NotStarted));
    record.end_timestamp = 200;
    let auction = AuctionVersion::AuctionV1(record);
    let decide = |now: i64| {
        Processor::decide_bid(&auction, now, 1, &key(BIDDER), &key(POOL), &key(AUTHORITY))
    };
    assert_eq!(decide(150), Err(BidRefusal::Canceled));
    assert_eq!(decide(250), Err(BidRefusal::Ended));
}

#[test]
fn only_the_flag_one_cancels() {
    let record = initialized(fees(0, 0), 9, 100, 200);
    for flag in [0u8, 2, 255] {
        let mut accounts = vec![account(key(AUCTION), record.clone())];
        assert_eq!(Processor::process_cancel(&key(1), flag, &mut accounts), Ok(()));
        let rewritten = accounts.remove(0).data;
        let decoded = AuctionVersion::unpack(&rewritten).unwrap();
        assert_eq!(decoded.canceled(), flag);
        let outcome =
            Processor::process_place_bid(&key(1), 5, &bid_accounts(rewritten, 150)).unwrap();
        assert_eq!(outcome.refusal, None);
        assert_eq!(outcome.transfers.len(), 1);
    }
}

#[test]
fn cancel_changes_the_flag_alone() {
    let record = initialized(fees(1, 100), 9, 100, 200);
    let mut accounts = vec![account(key(AUCTION), record.clone()), plain(POOL)];
    assert_eq!(Processor::process_cancel(&key(1), 1, &mut accounts), Ok(()));
    let mut expected = record.clone();
    expected[164 - 1] = 1;
    assert_eq!(accounts[0].data, expected);
    assert_eq!(accounts[0].key, key(AUCTION));
    assert_eq!(accounts[1].key, key(POOL));
    assert_eq!(Processor::process_cancel(&key(1), 0, &mut accounts), Ok(()));
    assert_eq!(accounts[0].data, record);
}

#[test]
fn cancel_refuses_what_does_not_decode() {
    for data in [vec![], vec![0u8; 290], vec![1u8; 100], vec![2u8; 290]] {
        let mut accounts = vec![account(key(AUCTION), data.clone())];
        assert_eq!(
            Processor::process_cancel(&key(1), 1, &mut accounts),
            Err(Fault::InvalidAccountData)
        );
        assert_eq!(accounts[0].data, data);
    }
}

#[test]
fn scenario_withdraw_with_the_smallest_fee() {
    let record = initialized(fees(1, 100), 9, 100, 200);
    let mut accounts = withdraw_accounts(record.clone());
    let input = AuctionInstruction::Withdraw(Withdraw { bid_amount: 50 }).pack();
    let outcome = Processor::process(&key(1), &mut accounts, &input).unwrap();
    assert_eq!(outcome.refusal, None);
    assert_eq!(
        requests(&outcome),
        vec![
            TransferRequest {
                source: key(POOL),
                destination: key(DESTINATION),
                authority: key(AUTHORITY),
                nonce: 9,
                amount: 50,
            },
            TransferRequest {
                source: key(POOL),
                destination: key(FEE),
                authority: key(AUTHORITY),
                nonce: 9,
                amount: 1,
            },
        ]
    );
    assert_eq!(accounts[0].data, record);
}

#[test]
fn withdraw_fee_is_the_floored_share() {
    let record = initialized(fees(1, 100), 9, 100, 200);
    let outcome =
        Processor::process_withdraw(&key(1), 12_345, &withdraw_accounts(record.clone())).unwrap();
    assert_eq!(requests(&outcome)[0].amount, 12_345);
    assert_eq!(requests(&outcome)[1].amount, 123);
    let outcome = Processor::process_withdraw(&key(1), 0, &withdraw_accounts(record)).unwrap();
    assert_eq!(requests(&outcome)[0].amount, 0);
    assert_eq!(requests(&outcome)[1].amount, 0);
    let free = initialized(fees(0, 0), 9, 100, 200);
    let outcome = Processor::process_withdraw(&key(1), 777, &withdraw_accounts(free)).unwrap();
    assert_eq!(requests(&outcome)[1].amount, 0);
}

#[test]
fn withdraw_looks_at_neither_clock_nor_flag() {
    let mut record = AuctionV1::default();
    record.is_initialized = true;
    record.start_timestamp = 100;
    record.end_timestamp = 50;
    record.canceled = 1;
    record.nonce = 3;
    let outcome =
        Processor::process_withdraw(&key(1), 10, &withdraw_accounts(raw_record(record))).unwrap();
    assert_eq!(outcome.transfers.len(), 2);
    assert_eq!(requests(&outcome)[0].nonce, 3);
}

#[test]
fn withdraw_fee_faults() {
    let mut record = AuctionV1::default();
    record.is_initialized = true;
    record.fees = fees(1, 0);
    let fault = Processor::process_withdraw(&key(1), 10, &withdraw_accounts(raw_record(record)))
        .unwrap_err();
    assert_eq!(fault, Fault::Custom(AuctionError::FeeCalculationFailure));
    record.fees = fees(u64::MAX, 1);
    let fault = Processor::process_withdraw(&key(1), 10, &withdraw_accounts(raw_record(record)))
        .unwrap_err();
    assert_eq!(fault, Fault::Custom(AuctionError::ConversionFailure));
    let decided = Processor::decide_withdraw(
        &AuctionVersion::AuctionV1(record),
        1,
        &key(POOL),
        &key(DESTINATION),
        &key(FEE),
        &key(AUTHORITY),
    )
    .unwrap();
    assert_eq!(decided.1.amount, u64::MAX);
}

#[test]
fn transfers_want_the_token_program() {
    let record = initialized(fees(1, 100), 9, 100, 200);
    let mut accounts = bid_accounts(record.clone(), 150);
    accounts[3] = plain(0x77);
    assert_eq!(
        Processor::process_place_bid(&key(1), 5, &accounts).unwrap_err(),
        Fault::IncorrectProgramId
    );
    let mut accounts = bid_accounts(record.clone(), 50);
    accounts[3] = plain(0x77);
    let outcome = Processor::process_place_bid(&key(1), 5, &accounts).unwrap();
    assert_eq!(outcome.refusal, Some(BidRefusal::NotStarted));
    let mut accounts = withdraw_accounts(record);
    accounts[4] = plain(0x77);
    assert_eq!(
        Processor::process_withdraw(&key(1), 5, &accounts).unwrap_err(),
        Fault::IncorrectProgramId
    );
    assert_eq!(
        Processor::token_transfer(&key(1), &key(2), &key(3), &key(4), &key(5), 6, 7).unwrap_err(),
        Fault::IncorrectProgramId
    );
}

#[test]
fn bid_wants_the_clock_account() {
    let record = initialized(fees(0, 0), 9, 100, 200);
    let mut accounts = bid_accounts(record.clone(), 150);
    accounts[5].key = key(0x55);
    assert_eq!(
        Processor::process_place_bid(&key(1), 5, &accounts).unwrap_err(),
        Fault::InvalidArgument
    );
    let mut accounts = bid_accounts(record.clone(), 150);
    accounts[5].data.truncate(39);
    assert_eq!(
        Processor::process_place_bid(&key(1), 5, &accounts).unwrap_err(),
        Fault::InvalidArgument
    );
    let mut accounts = bid_accounts(vec![0u8; 290], 150);
    accounts[5].data.truncate(39);
    assert_eq!(
        Processor::process_place_bid(&key(1), 5, &accounts).unwrap_err(),
        Fault::InvalidArgument
    );
}

#[test]
fn bid_and_withdraw_want_a_record() {
    for data in [vec![], vec![0u8; 290], vec![1u8; 289]] {
        assert_eq!(
            Processor::process_place_bid(&key(1), 5, &bid_accounts(data.clone(), 150))
                .unwrap_err(),
            Fault::InvalidAccountData
        );
        assert_eq!(
            Processor::process_withdraw(&key(1), 5, &withdraw_accounts(data)).unwrap_err(),
            Fault::InvalidAccountData
        );
    }
}

#[test]
fn process_refuses_malformed_instructions() {
    let record = initialized(fees(0, 0), 9, 100, 200);
    for input in [vec![], vec![9u8], vec![1u8, 0, 0], vec![0u8; 33], vec![3u8]] {
        let mut accounts = bid_accounts(record.clone(), 150);
        let before = datas(&accounts);
        assert_eq!(
            Processor::process(&key(1), &mut accounts, &input).unwrap_err(),
            Fault::Custom(AuctionError::InvalidInstruction)
        );
        assert_eq!(datas(&accounts), before);
    }
}

#[test]
fn transfer_call_matches_the_token_program() {
    let call = Processor::token_transfer(
        &key(AUCTION),
        &token_program(),
        &key(BIDDER),
        &key(POOL),
        &key(AUTHORITY),
        9,
        0x0102_0304_0506_0708,
    )
    .unwrap();
    assert_eq!(call.auction, key(AUCTION));
    assert_eq!(call.request.nonce, 9);
    assert_eq!(call.instruction.program_id, token_program());
    assert_eq!(call.instruction.data, vec![3, 8, 7, 6, 5, 4, 3, 2, 1]);
    let metas: Vec<(Address, bool, bool)> = call
        .instruction
        .accounts
        .iter()
        .map(|m| (m.pubkey, m.is_signer, m.is_writable))
        .collect();
    assert_eq!(
        metas,
        vec![
            (key(BIDDER), false, true),
            (key(POOL), false, true),
            (key(AUTHORITY), true, false),
        ]
    );
    assert_eq!(
        token_program().bytes,
        [
            6, 221, 246, 225, 215, 101, 161, 147, 217, 203, 225, 70, 206, 235, 121, 172, 28, 180,
            133, 237, 95, 91, 55, 145, 58, 140, 245, 133, 126, 255, 0, 169
        ]
    );
}

#[test]
fn entry_points_on_the_record_buffer() {
    let record = initialized(fees(1, 100), 9, 100, 200);
    let outcome = Processor::place_bid_at(
        &record,
        150,
        1_000,
        &key(AUCTION),
        &token_program(),
        &key(BIDDER),
        &key(POOL),
        &key(AUTHORITY),
    )
    .unwrap();
    assert_eq!(requests(&outcome).len(), 1);
    assert_eq!(requests(&outcome)[0].amount, 1_000);
    let outcome = Processor::place_bid_at(
        &record,
        99,
        1_000,
        &key(AUCTION),
        &key(0x77),
        &key(BIDDER),
        &key(POOL),
        &key(AUTHORITY),
    )
    .unwrap();
    assert_eq!(outcome.refusal, Some(BidRefusal::NotStarted));
    assert!(outcome.transfers.is_empty());
    let outcome = Processor::withdraw_from(
        &record,
        50,
        &key(AUCTION),
        &token_program(),
        &key(POOL),
        &key(DESTINATION),
        &key(FEE),
        &key(AUTHORITY),
    )
    .unwrap();
    assert_eq!(requests(&outcome)[0].amount, 50);
    assert_eq!(requests(&outcome)[0].destination, key(DESTINATION));
    assert_eq!(requests(&outcome)[1].amount, 1);
    assert_eq!(requests(&outcome)[1].destination, key(FEE));
    assert_eq!(
        Processor::place_bid_at(
            &record[..289],
            150,
            1,
            &key(AUCTION),
            &token_program(),
            &key(BIDDER),
            &key(POOL),
            &key(AUTHORITY),
        )
        .unwrap_err(),
        Fault::InvalidAccountData
    );
    assert_eq!(
        Processor::withdraw_from(
            &[],
            1,
            &key(AUCTION),
            &token_program(),
            &key(POOL),
            &key(DESTINATION),
            &key(FEE),
            &key(AUTHORITY),
        )
        .unwrap_err(),
        Fault::InvalidAccountData
    );
}

#[test]
fn initialize_record_checks_in_its_order() {
    let in_use = initialized(fees(0, 0), 9, 100, 200);
    let mut buffer = in_use.clone();
    let done = Processor::initialize_record(
        &mut buffer,
        fees(5, 5),
        1,
        2,
        3,
        &key(1),
        &key(2),
        &key(3),
        &key(4),
    );
    assert_eq!(done, Err(Fault::Custom(AuctionError::AlreadyInUse)));
    assert_eq!(buffer, in_use);

    let mut short = vec![0u8; 10];
    let done = Processor::initialize_record(
        &mut short,
        fees(5, 5),
        1,
        2,
        3,
        &key(1),
        &key(2),
        &key(3),
        &key(4),
    );
    assert_eq!(done, Err(Fault::Custom(AuctionError::InvalidFee)));
    let done = Processor::initialize_record(
        &mut short,
        fees(1, 5),
        1,
        2,
        3,
        &key(1),
        &key(2),
        &key(3),
        &key(4),
    );
    assert_eq!(done, Err(Fault::InvalidAccountData));
    assert_eq!(short, vec![0u8; 10]);

    let mut fresh = vec![0xCCu8; 290];
    let done = Processor::initialize_record(
        &mut fresh,
        fees(1, 5),
        1,
        2,
        3,
        &key(1),
        &key(2),
        &key(3),
        &key(4),
    );
    assert_eq!(done, Ok(()));
    assert_eq!(
        AuctionVersion::unpack(&fresh),
        Ok(AuctionVersion::AuctionV1(AuctionV1 {
            is_initialized: true,
            token_program_id: key(1),
            token: key(2),
            pool: key(3),
            fee_account: key(4),
            fees: fees(1, 5),
            nonce: 1,
            start_timestamp: 2,
            end_timestamp: 3,
            canceled: 0,
        }))
    );
    assert!(fresh[164..].iter().all(|b| *b == 0xCC));
    let again = Processor::initialize_record(
        &mut fresh,
        fees(0, 0),
        0,
        0,
        0,
        &key(1),
        &key(2),
        &key(3),
        &key(4),
    );
    assert_eq!(again, Err(Fault::Custom(AuctionError::AlreadyInUse)));
}

#[test]
fn cancel_record_rewrites_in_place() {
    let record = initialized(fees(1, 100), 9, 100, 200);
    let mut buffer = record.clone();
    assert_eq!(Processor::cancel_record(&mut buffer, 200), Ok(()));
    let decoded = AuctionVersion::unpack(&buffer).unwrap();
    assert_eq!(decoded.canceled(), 200);
    assert_eq!(decoded.nonce(), 9);
    assert_eq!(*decoded.fees(), fees(1, 100));
    assert_eq!(buffer[..163], record[..163]);
    let mut junk = vec![3u8; 290];
    assert_eq!(Processor::cancel_record(&mut junk, 1), Err(Fault::InvalidAccountData));
    assert_eq!(junk, vec![3u8; 290]);
}

#[test]
fn withdraw_fee_never_exceeds_the_amount_under_a_valid_schedule() {
    for (numerator, denominator) in [(0u64, 0u64), (1, 2), (1, 100), (99, 100), (1, u64::MAX)] {
        let mut record = AuctionV1::default();
        record.is_initialized = true;
        record.fees = fees(numerator, denominator);
        let auction = AuctionVersion::AuctionV1(record);
        for amount in [0u64, 1, 2, 50, 1_000, u64::MAX] {
            let decided = Processor::decide_withdraw(
                &auction,
                amount,
                &key(POOL),
                &key(DESTINATION),
                &key(FEE),
                &key(AUTHORITY),
            )
            .unwrap();
            assert_eq!(decided.0.amount, amount);
            assert!(decided.1.amount <= amount);
            assert_eq!(decided.1.amount == 0, numerator == 0 || amount == 0);
        }
    }
}
