//! The commands of the program and their wire format: one tag byte, then
//! the fields of the command, integers in little-endian order.

use crate::account::{AccountMeta, Instruction, InstructionView};
use crate::address::Address;
use crate::error::{AuctionError, Fault};
use crate::fees::AuctionFees;
use crate::ledger::{clock_sysvar_id, spec_clock_sysvar_id};
use crate::wire::{
    lemma_i64_le_bytes_round_trip, read_i64, read_u64, spec_i64_from_le_bytes,
    spec_i64_to_le_bytes,
};
use vstd::bytes::{
    lemma_auto_spec_u64_to_from_le_bytes, spec_u64_from_le_bytes, spec_u64_to_le_bytes,
    u64_to_le_bytes,
};
use vstd::prelude::*;

verus! {

/// Seconds since the Unix epoch.
pub type UnixTimestamp = i64;

/// Which of the two fund movements a preference applies to.
#[derive(Clone, Copy, Debug, PartialEq, Eq, Structural)]
pub enum PreferredValidatorType {
    /// Deposits.
    PlaceBid,
    /// Withdrawals.
    Withdraw,
}

/// Fields of the command that creates an auction.
#[derive(Clone, Copy, Debug, PartialEq, Eq, Structural)]
pub struct InitializeData {
    /// Fee schedule of the auction.
    pub fees: AuctionFees,
    /// Input of the derivation of the auction's signing address.
    pub nonce: u8,
    /// First second at which bids are taken.
    pub start_timestamp: UnixTimestamp,
    /// Last second at which bids are taken.
    pub end_timestamp: UnixTimestamp,
}

/// Fields of the command that deposits a bid.
#[derive(Clone, Copy, Debug, PartialEq, Eq, Structural)]
pub struct PlaceBid {
    /// Amount to deposit.
    pub bid_amount: u64,
}

/// Fields of the command that pays a bid out.
#[derive(Clone, Copy, Debug, PartialEq, Eq, Structural)]
pub struct Withdraw {
    /// Amount to pay out.
    pub bid_amount: u64,
}

/// Fields of the command that sets the cancellation flag.
#[derive(Clone, Copy, Debug, PartialEq, Eq, Structural)]
pub struct Cancel {
    /// The flag to store: 1 cancels the auction.
    pub canceled: u8,
}

/// The commands of the program.
#[derive(Clone, Copy, Debug, PartialEq, Eq, Structural)]
pub enum AuctionInstruction {
    /// Creates an auction. Accounts: the auction record (writable), the
    /// owner's token account, the pool account, the fee account, the token
    /// program.
    Initialize(InitializeData),
    /// Deposits a bid. Accounts: the auction record, the bidder's token
    /// account (writable), the pool account (writable), the token program,
    /// the transfer authority, the clock.
    PlaceBid(PlaceBid),
    /// Pays a bid out. Accounts: the auction record, the pool account
    /// (writable), the account to credit (writable), the fee account
    /// (writable), the token program, the transfer authority.
    Withdraw(Withdraw),
    /// Sets the cancellation flag. Accounts: the auction record (writable).
    Cancel(Cancel),
}

impl AuctionInstruction {
    /// The bytes of a command on the wire.
    pub open spec fn spec_pack(self) -> Seq<u8> {
        match self {
            AuctionInstruction::Initialize(data) => seq![0u8] + data.fees.spec_bytes() + seq![
                data.nonce,
            ] + spec_i64_to_le_bytes(data.start_timestamp) + spec_i64_to_le_bytes(
                data.end_timestamp,
            ),
            AuctionInstruction::PlaceBid(bid) => seq![1u8] + spec_u64_to_le_bytes(bid.bid_amount),
            AuctionInstruction::Withdraw(withdrawal) => seq![2u8] + spec_u64_to_le_bytes(
                withdrawal.bid_amount,
            ),
            AuctionInstruction::Cancel(cancel) => seq![3u8, cancel.canceled],
        }
    }

    /// Number of bytes that the command with tag `tag` takes on the wire,
    /// tag included; `None` for a tag that names no command.
    pub open spec fn spec_wire_len(tag: u8) -> Option<nat> {
        if tag == 0 {
            Some(34)
        } else if tag == 1 || tag == 2 {
            Some(9)
        } else if tag == 3 {
            Some(2)
        } else {
            None
        }
    }

    /// The command that `input` starts with, if its tag names a command
    /// and all the fields of that command are there. Bytes after the last
    /// field are not looked at.
    pub open spec fn spec_unpack(input: Seq<u8>) -> Option<AuctionInstruction> {
        if input.len() == 0 {
            None
        } else {
            match Self::spec_wire_len(input[0]) {
                None => None,
                Some(needed) => if input.len() < needed {
                    None
                } else if input[0] == 0 {
                    Some(
                        AuctionInstruction::Initialize(
                            InitializeData {
                                fees: AuctionFees::spec_from_bytes(input.subrange(1, 17)),
                                nonce: input[17],
                                start_timestamp: spec_i64_from_le_bytes(input.subrange(18, 26)),
                                end_timestamp: spec_i64_from_le_bytes(input.subrange(26, 34)),
                            },
                        ),
                    )
                } else if input[0] == 1 {
                    Some(
                        AuctionInstruction::PlaceBid(
                            PlaceBid { bid_amount: spec_u64_from_le_bytes(input.subrange(1, 9)) },
                        ),
                    )
                } else if input[0] == 2 {
                    Some(
                        AuctionInstruction::Withdraw(
                            Withdraw { bid_amount: spec_u64_from_le_bytes(input.subrange(1, 9)) },
                        ),
                    )
                } else {
                    Some(AuctionInstruction::Cancel(Cancel { canceled: input[1] }))
                },
            }
        }
    }

    /// Decodes a command. Fails where `input` is empty, where its first
    /// byte names no command, and where a field of the command is not
    /// there in full.
    pub fn unpack(input: &[u8]) -> (decoded: Result<Self, Fault>)
        ensures
            decoded == match Self::spec_unpack(input@) {
                Some(instruction) => Ok::<Self, Fault>(instruction),
                None => Err(Fault::Custom(AuctionError::InvalidInstruction)),
            },
    {
        if input.len() == 0 {
            return Err(Fault::Custom(AuctionError::InvalidInstruction));
        }
        let tag = input[0];
        let rest = vstd::slice::slice_subrange(input, 1, input.len());
        Ok(
            match tag {
                0 => {
                    if rest.len() >= AuctionFees::LEN {
                        let (fees, after_fees) = rest.split_at(AuctionFees::LEN);
                        let fees = AuctionFees::unpack_unchecked(fees)?;
                        if after_fees.len() == 0 {
                            return Err(Fault::Custom(AuctionError::InvalidInstruction));
                        }
                        let nonce = after_fees[0];
                        let after_nonce = vstd::slice::slice_subrange(
                            after_fees,
                            1,
                            after_fees.len(),
                        );
                        let (start_timestamp, after_start) = Self::unpack_i64(after_nonce)?;
                        let (end_timestamp, _rest) = Self::unpack_i64(after_start)?;
                        proof {
                            assert(rest@.subrange(0, 16) =~= input@.subrange(1, 17));
                            assert(after_fees@ =~= input@.subrange(17, input@.len() as int));
                            assert(after_nonce@ =~= input@.subrange(18, input@.len() as int));
                            assert(after_nonce@.subrange(0, 8) =~= input@.subrange(18, 26));
                            assert(after_start@ =~= input@.subrange(26, input@.len() as int));
                            assert(after_start@.subrange(0, 8) =~= input@.subrange(26, 34));
                        }
                        AuctionInstruction::Initialize(
                            InitializeData { fees, nonce, start_timestamp, end_timestamp },
                        )
                    } else {
                        return Err(Fault::Custom(AuctionError::InvalidInstruction));
                    }
                },
                1 => {
                    let (bid_amount, _rest) = Self::unpack_u64(rest)?;
                    proof {
                        assert(rest@.subrange(0, 8) =~= input@.subrange(1, 9));
                    }
                    AuctionInstruction::PlaceBid(PlaceBid { bid_amount })
                },
                2 => {
                    let (bid_amount, _rest) = Self::unpack_u64(rest)?;
                    proof {
                        assert(rest@.subrange(0, 8) =~= input@.subrange(1, 9));
                    }
                    AuctionInstruction::Withdraw(Withdraw { bid_amount })
                },
                3 => {
                    if rest.len() == 0 {
                        return Err(Fault::Custom(AuctionError::InvalidInstruction));
                    }
                    AuctionInstruction::Cancel(Cancel { canceled: rest[0] })
                },
                _ => {
                    return Err(Fault::Custom(AuctionError::InvalidInstruction));
                },
            },
        )
    }

    /// Takes eight bytes off the front of `input` as an unsigned integer,
    /// and returns it with the bytes that follow.
    pub fn unpack_u64(input: &[u8]) -> (taken: Result<(u64, &[u8]), Fault>)
        ensures
            input@.len() < 8 ==> taken == Err::<(u64, &[u8]), Fault>(
                Fault::Custom(AuctionError::InvalidInstruction),
            ),
            input@.len() >= 8 ==> taken is Ok && taken.unwrap().0 == spec_u64_from_le_bytes(
                input@.subrange(0, 8),
            ) && taken.unwrap().1@ == input@.subrange(8, input@.len() as int),
    {
        if input.len() >= 8 {
            let (_amount, rest) = input.split_at(8);
            let amount = read_u64(input, 0);
            Ok((amount, rest))
        } else {
            Err(Fault::Custom(AuctionError::InvalidInstruction))
        }
    }

    /// Takes eight bytes off the front of `input` as a signed integer, and
    /// returns it with the bytes that follow.
    pub fn unpack_i64(input: &[u8]) -> (taken: Result<(i64, &[u8]), Fault>)
        ensures
            input@.len() < 8 ==> taken == Err::<(i64, &[u8]), Fault>(
                Fault::Custom(AuctionError::InvalidInstruction),
            ),
            input@.len() >= 8 ==> taken is Ok && taken.unwrap().0 == spec_i64_from_le_bytes(
                input@.subrange(0, 8),
            ) && taken.unwrap().1@ == input@.subrange(8, input@.len() as int),
    {
        if input.len() >= 8 {
            let (_amount, rest) = input.split_at(8);
            let amount = read_i64(input, 0);
            Ok((amount, rest))
        } else {
            Err(Fault::Custom(AuctionError::InvalidInstruction))
        }
    }

    /// Encodes the command.
    pub fn pack(&self) -> (buf: Vec<u8>)
        ensures
            buf@ == self.spec_pack(),
    {
        let mut buf = Vec::new();
        match self {
            AuctionInstruction::Initialize(
                InitializeData { fees, nonce, start_timestamp, end_timestamp },
            ) => {
                buf.push(0);
                let mut fees_slice = [0u8; 16];
                fees.pack_into_slice(&mut fees_slice);
                buf.extend_from_slice(&fees_slice);
                buf.push(*nonce);
                buf.extend_from_slice(u64_to_le_bytes(*start_timestamp as u64).as_slice());
                buf.extend_from_slice(u64_to_le_bytes(*end_timestamp as u64).as_slice());
                proof {
                    fees.lemma_bytes_round_trip();
                    assert(buf@ =~= self.spec_pack());
                }
            },
            AuctionInstruction::PlaceBid(PlaceBid { bid_amount }) => {
                buf.push(1);
                buf.extend_from_slice(u64_to_le_bytes(*bid_amount).as_slice());
                assert(buf@ =~= self.spec_pack());
            },
            AuctionInstruction::Withdraw(Withdraw { bid_amount }) => {
                buf.push(2);
                buf.extend_from_slice(u64_to_le_bytes(*bid_amount).as_slice());
                assert(buf@ =~= self.spec_pack());
            },
            AuctionInstruction::Cancel(Cancel { canceled }) => {
                buf.push(3);
                buf.push(*canceled);
                assert(buf@ =~= self.spec_pack());
            },
        }
        buf
    }

    /// The tag byte of a command.
    pub open spec fn spec_tag(self) -> u8 {
        match self {
            AuctionInstruction::Initialize(_) => 0,
            AuctionInstruction::PlaceBid(_) => 1,
            AuctionInstruction::Withdraw(_) => 2,
            AuctionInstruction::Cancel(_) => 3,
        }
    }

    /// An encoded command starts with its tag and has the length that the
    /// tag calls for.
    pub proof fn lemma_pack_shape(self)
        ensures
            self.spec_pack().len() > 0,
            self.spec_pack()[0] == self.spec_tag(),
            Self::spec_wire_len(self.spec_tag()) == Some(self.spec_pack().len()),
    {
        lemma_auto_spec_u64_to_from_le_bytes();
        lemma_i64_le_bytes_round_trip();
        if let AuctionInstruction::Initialize(data) = self {
            data.fees.lemma_bytes_round_trip();
        }
    }

    /// Decoding what was encoded gives the command back, whatever bytes
    /// follow it.
    pub proof fn lemma_unpack_pack(self, tail: Seq<u8>)
        ensures
            Self::spec_unpack(self.spec_pack() + tail) == Some(self),
    {
        lemma_auto_spec_u64_to_from_le_bytes();
        lemma_i64_le_bytes_round_trip();
        self.lemma_pack_shape();
        let wire = self.spec_pack() + tail;
        match self {
            AuctionInstruction::Initialize(data) => {
                data.fees.lemma_bytes_round_trip();
                assert(wire.subrange(1, 17) =~= data.fees.spec_bytes());
                assert(wire.subrange(18, 26) =~= spec_i64_to_le_bytes(data.start_timestamp));
                assert(wire.subrange(26, 34) =~= spec_i64_to_le_bytes(data.end_timestamp));
            },
            AuctionInstruction::PlaceBid(bid) => {
                assert(wire.subrange(1, 9) =~= spec_u64_to_le_bytes(bid.bid_amount));
            },
            AuctionInstruction::Withdraw(withdrawal) => {
                assert(wire.subrange(1, 9) =~= spec_u64_to_le_bytes(withdrawal.bid_amount));
            },
            AuctionInstruction::Cancel(_) => {},
        }
    }

    /// Decoding what was encoded gives the command back.
    pub proof fn lemma_round_trip(self)
        ensures
            Self::spec_unpack(self.spec_pack()) == Some(self),
    {
        self.lemma_unpack_pack(Seq::empty());
        assert(self.spec_pack() + Seq::<u8>::empty() =~= self.spec_pack());
    }

    /// An encoded command that lost bytes at its end does not decode.
    pub proof fn lemma_truncated_fails(self, kept: int)
        requires
            0 <= kept < self.spec_pack().len(),
        ensures
            Self::spec_unpack(self.spec_pack().subrange(0, kept)) is None,
    {
        self.lemma_pack_shape();
    }

    /// A buffer decodes exactly when it starts with the tag of a command
    /// and is as long as that command.
    pub proof fn lemma_unpack_some_iff(input: Seq<u8>)
        ensures
            Self::spec_unpack(input) is Some <==> input.len() > 0 && (Self::spec_wire_len(
                input[0],
            ) matches Some(needed) && input.len() >= needed),
            Self::spec_unpack(input) matches Some(instruction) ==> instruction.spec_tag()
                == input[0],
    {
    }

    /// Encoding a decoded command gives the bytes it was decoded from.
    pub proof fn lemma_pack_unpack(input: Seq<u8>)
        requires
            Self::spec_unpack(input) is Some,
        ensures
            Self::spec_unpack(input).unwrap().spec_pack() == input.subrange(
                0,
                Self::spec_wire_len(input[0]).unwrap() as int,
            ),
    {
        lemma_auto_spec_u64_to_from_le_bytes();
        lemma_i64_le_bytes_round_trip();
        let instruction = Self::spec_unpack(input).unwrap();
        match instruction {
            AuctionInstruction::Initialize(data) => {
                assert(input.subrange(1, 17).subrange(0, 8) =~= input.subrange(1, 9));
                assert(input.subrange(1, 17).subrange(8, 16) =~= input.subrange(9, 17));
                assert(instruction.spec_pack() =~= input.subrange(0, 34));
            },
            AuctionInstruction::PlaceBid(_) => {
                assert(instruction.spec_pack() =~= input.subrange(0, 9));
            },
            AuctionInstruction::Withdraw(_) => {
                assert(instruction.spec_pack() =~= input.subrange(0, 9));
            },
            AuctionInstruction::Cancel(_) => {
                assert(instruction.spec_pack() =~= input.subrange(0, 2));
            },
        }
    }
}

/// Creates an 'initialize' instruction: for the program `program_id`,
/// over the auction record (writable, signer), the owner's token account,
/// the pool account (writable), the fee account and the token program.
pub fn initialize(
    program_id: &Address,
    token_program_id: &Address,
    auction_pubkey: &Address,
    owner_token_pubkey: &Address,
    pool_pubkey: &Address,
    fee_pubkey: &Address,
    fees: AuctionFees,
    nonce: u8,
    start_timestamp: UnixTimestamp,
    end_timestamp: UnixTimestamp,
) -> (built: Result<Instruction, Fault>)
    ensures
        built matches Ok(instruction) && instruction@ == (InstructionView {
            program_id: *program_id,
            accounts: seq![
                AccountMeta { pubkey: *auction_pubkey, is_signer: true, is_writable: true },
                AccountMeta { pubkey: *owner_token_pubkey, is_signer: false, is_writable: false },
                AccountMeta { pubkey: *pool_pubkey, is_signer: false, is_writable: true },
                AccountMeta { pubkey: *fee_pubkey, is_signer: false, is_writable: false },
                AccountMeta { pubkey: *token_program_id, is_signer: false, is_writable: false },
            ],
            data: AuctionInstruction::Initialize(
                InitializeData { fees, nonce, start_timestamp, end_timestamp },
            ).spec_pack(),
        }),
{
    let init_data = AuctionInstruction::Initialize(
        InitializeData { fees, nonce, start_timestamp, end_timestamp },
    );
    let data = init_data.pack();
    let accounts = vec![
        AccountMeta::new(*auction_pubkey, true),
        AccountMeta::new_readonly(*owner_token_pubkey, false),
        AccountMeta::new(*pool_pubkey, false),
        AccountMeta::new_readonly(*fee_pubkey, false),
        AccountMeta::new_readonly(*token_program_id, false),
    ];
    Ok(Instruction { program_id: *program_id, accounts, data })
}

/// Creates a 'place_bid' instruction: for the program `program_id`, over
/// the auction record, the bidder's token account (writable), the pool
/// account (writable), the token program, the transfer authority and the
/// clock.
pub fn place_bid(
    program_id: &Address,
    token_program_id: &Address,
    auction_pubkey: &Address,
    deposit_token_pubkey: &Address,
    pool_pubkey: &Address,
    user_transfer_authority_pubkey: &Address,
    instruction: PlaceBid,
) -> (built: Result<Instruction, Fault>)
    ensures
        built matches Ok(made) && made@ == (InstructionView {
            program_id: *program_id,
            accounts: seq![
                AccountMeta { pubkey: *auction_pubkey, is_signer: false, is_writable: false },
                AccountMeta { pubkey: *deposit_token_pubkey, is_signer: false, is_writable: true },
                AccountMeta { pubkey: *pool_pubkey, is_signer: false, is_writable: true },
                AccountMeta { pubkey: *token_program_id, is_signer: false, is_writable: false },
                AccountMeta {
                    pubkey: *user_transfer_authority_pubkey,
                    is_signer: false,
                    is_writable: false,
                },
                AccountMeta {
                    pubkey: Address::from_seq(spec_clock_sysvar_id()),
                    is_signer: false,
                    is_writable: false,
                },
            ],
            data: AuctionInstruction::PlaceBid(instruction).spec_pack(),
        }),
{
    let data = AuctionInstruction::PlaceBid(instruction).pack();
    let clock = clock_sysvar_id();
    proof {
        clock.lemma_from_view();
    }
    let accounts = vec![
        AccountMeta::new_readonly(*auction_pubkey, false),
        AccountMeta::new(*deposit_token_pubkey, false),
        AccountMeta::new(*pool_pubkey, false),
        AccountMeta::new_readonly(*token_program_id, false),
        AccountMeta::new_readonly(*user_transfer_authority_pubkey, false),
        AccountMeta::new_readonly(clock, false),
    ];
    Ok(Instruction { program_id: *program_id, accounts, data })
}

/// Creates a 'withdraw' instruction: for the program `program_id`, over
/// the auction record, the pool account (writable), the account to credit
/// (writable), the fee account (writable), the token program and the
/// transfer authority.
pub fn withdraw(
    program_id: &Address,
    token_program_id: &Address,
    auction_pubkey: &Address,
    pool_pubkey: &Address,
    fee_account_pubkey: &Address,
    destination_token_pubkey: &Address,
    user_transfer_authority_pubkey: &Address,
    instruction: Withdraw,
) -> (built: Result<Instruction, Fault>)
    ensures
        built matches Ok(made) && made@ == (InstructionView {
            program_id: *program_id,
            accounts: seq![
                AccountMeta { pubkey: *auction_pubkey, is_signer: false, is_writable: false },
                AccountMeta { pubkey: *pool_pubkey, is_signer: false, is_writable: true },
                AccountMeta {
                    pubkey: *destination_token_pubkey,
                    is_signer: false,
                    is_writable: true,
                },
                AccountMeta { pubkey: *fee_account_pubkey, is_signer: false, is_writable: true },
                AccountMeta { pubkey: *token_program_id, is_signer: false, is_writable: false },
                AccountMeta {
                    pubkey: *user_transfer_authority_pubkey,
                    is_signer: false,
                    is_writable: false,
                },
            ],
            data: AuctionInstruction::Withdraw(instruction).spec_pack(),
        }),
{
    let data = AuctionInstruction::Withdraw(instruction).pack();
    let accounts = vec![
        AccountMeta::new_readonly(*auction_pubkey, false),
        AccountMeta::new(*pool_pubkey, false),
        AccountMeta::new(*destination_token_pubkey, false),
        AccountMeta::new(*fee_account_pubkey, false),
        AccountMeta::new_readonly(*token_program_id, false),
        AccountMeta::new_readonly(*user_transfer_authority_pubkey, false),
    ];
    Ok(Instruction { program_id: *program_id, accounts, data })
}

/// Creates a 'cancel' instruction: for the program `program_id`, over the
/// auction record.
pub fn cancel(program_id: &Address, auction_pubkey: &Address, instruction: Cancel) -> (built:
    Result<Instruction, Fault>)
    ensures
        built matches Ok(made) && made@ == (InstructionView {
            program_id: *program_id,
            accounts: seq![
                AccountMeta { pubkey: *auction_pubkey, is_signer: false, is_writable: false },
            ],
            data: AuctionInstruction::Cancel(instruction).spec_pack(),
        }),
{
    let data = AuctionInstruction::Cancel(instruction).pack();
    let accounts = vec![AccountMeta::new_readonly(*auction_pubkey, false)];
    assert(accounts@ =~= seq![
        AccountMeta { pubkey: *auction_pubkey, is_signer: false, is_writable: false },
    ]);
    Ok(Instruction { program_id: *program_id, accounts, data })
}

} // verus!
