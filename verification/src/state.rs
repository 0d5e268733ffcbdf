//! The persistent record of an auction and its byte layout.
//!
//! A record in storage is one version byte followed by the payload of that
//! version. The payload of version 1 takes 289 bytes; its fields fill the
//! first 163 of them, and the rest is reserved: it is neither written nor
//! read.

use crate::address::Address;
use crate::error::Fault;
use crate::fees::AuctionFees;
use crate::instruction::UnixTimestamp;
use crate::wire::{
    lemma_i64_le_bytes_round_trip, read_address, read_i64, spec_i64_from_le_bytes,
    spec_i64_to_le_bytes, spec_write, write_bytes, write_i64,
};
use vstd::bytes::lemma_auto_spec_u64_to_from_le_bytes;
use vstd::prelude::*;

verus! {

/// What every version of the record gives access to.
pub trait AuctionState {
    /// The fields of the record.
    spec fn spec_fields(&self) -> AuctionV1;

    /// Is the auction initialized, with data written to it
    fn is_initialized(&self) -> (initialized: bool)
        ensures
            initialized == self.spec_fields().is_initialized,
    ;

    /// Token program that the accounts of the auction belong to
    fn token_program_id(&self) -> (address: &Address)
        ensures
            *address == self.spec_fields().token_program_id,
    ;

    /// Address of the owner's token account
    fn token_account(&self) -> (address: &Address)
        ensures
            *address == self.spec_fields().token,
    ;

    /// Address of the pool token account
    fn pool(&self) -> (address: &Address)
        ensures
            *address == self.spec_fields().pool,
    ;

    /// Address of the account that receives the fees
    fn fee_account(&self) -> (address: &Address)
        ensures
            *address == self.spec_fields().fee_account,
    ;

    /// Fee schedule of the auction
    fn fees(&self) -> (fees: &AuctionFees)
        ensures
            *fees == self.spec_fields().fees,
    ;

    /// Input of the derivation of the auction's signing address
    fn nonce(&self) -> (nonce: u8)
        ensures
            nonce == self.spec_fields().nonce,
    ;

    /// First second at which bids are taken
    fn start_timestamp(&self) -> (timestamp: UnixTimestamp)
        ensures
            timestamp == self.spec_fields().start_timestamp,
    ;

    /// Last second at which bids are taken
    fn end_timestamp(&self) -> (timestamp: UnixTimestamp)
        ensures
            timestamp == self.spec_fields().end_timestamp,
    ;

    /// The cancellation flag: 1 means canceled
    fn canceled(&self) -> (canceled: u8)
        ensures
            canceled == self.spec_fields().canceled,
    ;
}

/// The record of an auction, version 1.
#[derive(Clone, Copy, Debug)]
pub struct AuctionV1 {
    /// Initialized state.
    pub is_initialized: bool,
    /// Program that owns the token accounts.
    pub token_program_id: Address,
    /// The owner's token account.
    pub token: Address,
    /// The pool token account, which holds the bids.
    pub pool: Address,
    /// The token account that receives the withdrawal fees.
    pub fee_account: Address,
    /// The fee schedule.
    pub fees: AuctionFees,
    /// Input of the derivation of the auction's signing address.
    pub nonce: u8,
    /// First second at which bids are taken.
    pub start_timestamp: UnixTimestamp,
    /// Last second at which bids are taken.
    pub end_timestamp: UnixTimestamp,
    /// The cancellation flag: 1 means canceled.
    pub canceled: u8,
}

/// All versions of the record.
#[derive(Clone, Copy, Debug)]
pub enum AuctionVersion {
    /// Latest version, used for all new auctions
    AuctionV1(AuctionV1),
}

impl AuctionV1 {
    /// Number of bytes of the payload.
    pub const LEN: usize = 289;

    /// Number of bytes at the start of the payload that hold its fields.
    pub const FIELDS_LEN: usize = 163;

    /// The bytes of the fields, in the order and at the widths of the
    /// layout.
    pub open spec fn spec_bytes(self) -> Seq<u8> {
        seq![if self.is_initialized { 1u8 } else { 0u8 }] + self.token_program_id@ + self.token@
            + self.pool@ + self.fee_account@ + self.fees.spec_bytes() + seq![self.nonce]
            + spec_i64_to_le_bytes(self.start_timestamp) + spec_i64_to_le_bytes(
            self.end_timestamp,
        ) + seq![self.canceled]
    }

    /// The record that the first 163 bytes of `s` hold, if the first byte
    /// is a flag.
    pub open spec fn spec_from_bytes(s: Seq<u8>) -> Option<AuctionV1> {
        if s[0] > 1 {
            None
        } else {
            Some(
                AuctionV1 {
                    is_initialized: s[0] == 1,
                    token_program_id: Address::from_seq(s.subrange(1, 33)),
                    token: Address::from_seq(s.subrange(33, 65)),
                    pool: Address::from_seq(s.subrange(65, 97)),
                    fee_account: Address::from_seq(s.subrange(97, 129)),
                    fees: AuctionFees::spec_from_bytes(s.subrange(129, 145)),
                    nonce: s[145],
                    start_timestamp: spec_i64_from_le_bytes(s.subrange(146, 154)),
                    end_timestamp: spec_i64_from_le_bytes(s.subrange(154, 162)),
                    canceled: s[162],
                },
            )
        }
    }

    /// Writes the fields into the first 163 bytes of `output`.
    pub fn pack_into_slice(&self, output: &mut [u8])
        requires
            old(output)@.len() >= 289,
        ensures
            final(output)@ == spec_write(old(output)@, 0, self.spec_bytes()),
    {
        output[0] = if self.is_initialized {
            1
        } else {
            0
        };
        write_bytes(output, 1, self.token_program_id.bytes.as_slice());
        write_bytes(output, 33, self.token.bytes.as_slice());
        write_bytes(output, 65, self.pool.bytes.as_slice());
        write_bytes(output, 97, self.fee_account.bytes.as_slice());
        let mut fees = [0u8; 16];
        self.fees.pack_into_slice(&mut fees);
        write_bytes(output, 129, fees.as_slice());
        output[145] = self.nonce;
        write_i64(output, 146, self.start_timestamp);
        write_i64(output, 154, self.end_timestamp);
        output[162] = self.canceled;
        proof {
            self.lemma_bytes_len();
            assert(output@ =~= spec_write(old(output)@, 0, self.spec_bytes()));
        }
    }

    /// Reads a record from the first 163 bytes of `input`. Fails where the
    /// first byte is neither 0 nor 1.
    pub fn unpack_from_slice(input: &[u8]) -> (record: Result<Self, Fault>)
        requires
            input@.len() >= 289,
        ensures
            record == match Self::spec_from_bytes(input@) {
                Some(r) => Ok::<Self, Fault>(r),
                None => Err(Fault::InvalidAccountData),
            },
    {
        let is_initialized = match input[0] {
            0 => false,
            1 => true,
            _ => {
                return Err(Fault::InvalidAccountData);
            },
        };
        let fees = AuctionFees::unpack_from_slice(vstd::slice::slice_subrange(input, 129, 145))?;
        Ok(
            AuctionV1 {
                is_initialized,
                token_program_id: read_address(input, 1),
                token: read_address(input, 33),
                pool: read_address(input, 65),
                fee_account: read_address(input, 97),
                fees,
                nonce: input[145],
                start_timestamp: read_i64(input, 146),
                end_timestamp: read_i64(input, 154),
                canceled: input[162],
            },
        )
    }

    /// Reads a record from a payload of exactly 289 bytes.
    pub fn unpack_unchecked(input: &[u8]) -> (record: Result<Self, Fault>)
        ensures
            record == if input@.len() != 289 {
                Err::<Self, Fault>(Fault::InvalidAccountData)
            } else {
                match Self::spec_from_bytes(input@) {
                    Some(r) => Ok::<Self, Fault>(r),
                    None => Err(Fault::InvalidAccountData),
                }
            },
    {
        if input.len() != Self::LEN {
            return Err(Fault::InvalidAccountData);
        }
        Self::unpack_from_slice(input)
    }

    /// Writes a record into a payload of exactly 289 bytes, and leaves a
    /// buffer of any other length as it is.
    pub fn pack(src: Self, dst: &mut [u8]) -> (done: Result<(), Fault>)
        ensures
            old(dst)@.len() != 289 ==> done == Err::<(), Fault>(Fault::InvalidAccountData)
                && final(dst)@ == old(dst)@,
            old(dst)@.len() == 289 ==> done == Ok::<(), Fault>(()) && final(dst)@ == spec_write(
                old(dst)@,
                0,
                src.spec_bytes(),
            ),
    {
        if dst.len() != Self::LEN {
            return Err(Fault::InvalidAccountData);
        }
        src.pack_into_slice(dst);
        Ok(())
    }

    /// The fields take 163 bytes.
    pub proof fn lemma_bytes_len(self)
        ensures
            self.spec_bytes().len() == 163,
            self.fees.spec_bytes().len() == 16,
            spec_i64_to_le_bytes(self.start_timestamp).len() == 8,
            spec_i64_to_le_bytes(self.end_timestamp).len() == 8,
    {
        self.fees.lemma_bytes_round_trip();
        assert(spec_i64_to_le_bytes(self.start_timestamp).len() == 8
            && spec_i64_to_le_bytes(self.end_timestamp).len() == 8) by {
            lemma_i64_le_bytes_round_trip();
        }
    }

    /// The bytes of a record read back as that record, whatever follows
    /// them.
    pub proof fn lemma_from_bytes_of_bytes(self, tail: Seq<u8>)
        ensures
            Self::spec_from_bytes(self.spec_bytes() + tail) == Some(self),
    {
        self.lemma_bytes_len();
        let s = self.spec_bytes() + tail;
        assert(Address::from_seq(s.subrange(1, 33)) == self.token_program_id) by {
            assert(s.subrange(1, 33) =~= self.token_program_id@);
            self.token_program_id.lemma_from_view();
        }
        assert(Address::from_seq(s.subrange(33, 65)) == self.token) by {
            assert(s.subrange(33, 65) =~= self.token@);
            self.token.lemma_from_view();
        }
        assert(Address::from_seq(s.subrange(65, 97)) == self.pool) by {
            assert(s.subrange(65, 97) =~= self.pool@);
            self.pool.lemma_from_view();
        }
        assert(Address::from_seq(s.subrange(97, 129)) == self.fee_account) by {
            assert(s.subrange(97, 129) =~= self.fee_account@);
            self.fee_account.lemma_from_view();
        }
        assert(AuctionFees::spec_from_bytes(s.subrange(129, 145)) == self.fees) by {
            assert(s.subrange(129, 145) =~= self.fees.spec_bytes());
            self.fees.lemma_bytes_round_trip();
        }
        assert(spec_i64_from_le_bytes(s.subrange(146, 154)) == self.start_timestamp) by {
            assert(s.subrange(146, 154) =~= spec_i64_to_le_bytes(self.start_timestamp));
            lemma_i64_le_bytes_round_trip();
        }
        assert(spec_i64_from_le_bytes(s.subrange(154, 162)) == self.end_timestamp) by {
            assert(s.subrange(154, 162) =~= spec_i64_to_le_bytes(self.end_timestamp));
            lemma_i64_le_bytes_round_trip();
        }
        assert(s[0] == if self.is_initialized { 1u8 } else { 0u8 });
        assert(s[145] == self.nonce);
        assert(s[162] == self.canceled);
    }

    /// Two records with the same bytes are the same record.
    pub proof fn lemma_bytes_injective(a: Self, b: Self)
        requires
            a.spec_bytes() == b.spec_bytes(),
        ensures
            a == b,
    {
        a.lemma_from_bytes_of_bytes(Seq::empty());
        b.lemma_from_bytes_of_bytes(Seq::empty());
    }
}

impl AuctionVersion {
    /// Number of bytes of a record of the latest version, version byte
    /// included.
    pub const LATEST_LEN: usize = 290;

    /// The fields of the record, whatever its version.
    pub open spec fn record(self) -> AuctionV1 {
        match self {
            AuctionVersion::AuctionV1(record) => record,
        }
    }

    /// The version byte of the record.
    pub open spec fn spec_version(self) -> u8 {
        match self {
            AuctionVersion::AuctionV1(_) => 1,
        }
    }

    /// What a buffer of 290 bytes holds after the record was packed into
    /// it: the version byte, the fields, and the reserved bytes as they
    /// were.
    pub open spec fn spec_pack(self, dst: Seq<u8>) -> Seq<u8> {
        seq![self.spec_version()] + self.record().spec_bytes() + dst.subrange(164, 290)
    }

    /// The record that a buffer holds: the buffer has 290 bytes, its first
    /// byte is a known version, and the byte after it is a flag.
    pub open spec fn spec_unpack(input: Seq<u8>) -> Option<AuctionVersion> {
        if input.len() != 290 || input[0] != 1 {
            None
        } else {
            match AuctionV1::spec_from_bytes(input.subrange(1, 290)) {
                Some(record) => Some(AuctionVersion::AuctionV1(record)),
                None => None,
            }
        }
    }

    /// Packs a record into a buffer of exactly 290 bytes, based on its
    /// version. A buffer of any other length is refused and left as it is.
    pub fn pack(src: Self, dst: &mut [u8]) -> (done: Result<(), Fault>)
        ensures
            old(dst)@.len() != 290 ==> done == Err::<(), Fault>(Fault::InvalidAccountData)
                && final(dst)@ == old(dst)@,
            old(dst)@.len() == 290 ==> done == Ok::<(), Fault>(()) && final(dst)@ == src.spec_pack(
                old(dst)@,
            ),
    {
        if dst.len() != Self::LATEST_LEN {
            return Err(Fault::InvalidAccountData);
        }
        match src {
            AuctionVersion::AuctionV1(auction_info) => {
                dst[0] = 1;
                let (_version, payload) = dst.split_at_mut(1);
                let done = AuctionV1::pack(auction_info, payload);
                proof {
                    auction_info.lemma_bytes_len();
                    assert(dst@ =~= src.spec_pack(old(dst)@));
                }
                done
            },
        }
    }

    /// Unpacks the record based on its version. Fails where the buffer is
    /// not 290 bytes long, where the version byte is unknown, and where the
    /// flag byte is neither 0 nor 1.
    pub fn unpack(input: &[u8]) -> (record: Result<AuctionVersion, Fault>)
        ensures
            record == match Self::spec_unpack(input@) {
                Some(r) => Ok::<AuctionVersion, Fault>(r),
                None => Err(Fault::InvalidAccountData),
            },
    {
        if input.len() == 0 {
            return Err(Fault::InvalidAccountData);
        }
        let version = input[0];
        let rest = vstd::slice::slice_subrange(input, 1, input.len());
        match version {
            1 => Ok(AuctionVersion::AuctionV1(AuctionV1::unpack_unchecked(rest)?)),
            _ => Err(Fault::InvalidAccountData),
        }
    }

    /// Special check to be done before any instruction processing, works
    /// for all versions: whether the buffer holds a record that is
    /// initialized. A buffer that does not decode holds none.
    pub fn is_initialized(input: &[u8]) -> (initialized: bool)
        ensures
            initialized == Self::spec_is_initialized(input@),
    {
        match Self::unpack(input) {
            Ok(auction) => AuctionState::is_initialized(&auction),
            Err(_) => false,
        }
    }

    /// Whether a buffer holds an initialized record.
    pub open spec fn spec_is_initialized(input: Seq<u8>) -> bool {
        Self::spec_unpack(input) matches Some(record) && record.record().is_initialized
    }

    /// A buffer holds an initialized record exactly when it has 290 bytes
    /// and starts with the version byte 1 and the flag byte 1.
    pub proof fn lemma_is_initialized_iff(input: Seq<u8>)
        ensures
            Self::spec_is_initialized(input) <==> input.len() == 290 && input[0] == 1 && input[1]
                == 1,
    {
    }

    /// A buffer decodes exactly when it has 290 bytes, starts with the
    /// version byte 1, and goes on with a flag byte of 0 or 1.
    pub proof fn lemma_unpack_some_iff(input: Seq<u8>)
        ensures
            Self::spec_unpack(input) is Some <==> input.len() == 290 && input[0] == 1 && input[1]
                <= 1,
    {
    }

    /// A buffer with an unknown version byte does not decode, and neither
    /// does one whose flag byte is neither 0 nor 1.
    pub proof fn lemma_unpack_rejects(input: Seq<u8>)
        requires
            input.len() >= 2,
            input[0] != 1 || input[1] > 1,
        ensures
            Self::spec_unpack(input) is None,
            !Self::spec_is_initialized(input),
    {
    }

    /// A record packed into a buffer of 290 bytes unpacks as that record.
    pub proof fn lemma_unpack_pack(self, dst: Seq<u8>)
        requires
            dst.len() == 290,
        ensures
            self.spec_pack(dst).len() == 290,
            Self::spec_unpack(self.spec_pack(dst)) == Some(self),
    {
        let record = self.record();
        record.lemma_bytes_len();
        let tail = dst.subrange(164, 290);
        record.lemma_from_bytes_of_bytes(tail);
        assert(self.spec_pack(dst).subrange(1, 290) =~= record.spec_bytes() + tail);
    }

    /// Packing an unpacked record into the buffer it came from leaves the
    /// buffer as it was.
    pub proof fn lemma_pack_unpack(input: Seq<u8>)
        requires
            Self::spec_unpack(input) is Some,
        ensures
            Self::spec_unpack(input).unwrap().spec_pack(input) == input,
    {
        lemma_auto_spec_u64_to_from_le_bytes();
        lemma_i64_le_bytes_round_trip();
        let record = Self::spec_unpack(input).unwrap().record();
        let s = input.subrange(1, 290);
        Address::lemma_view_from_seq(s.subrange(1, 33));
        Address::lemma_view_from_seq(s.subrange(33, 65));
        Address::lemma_view_from_seq(s.subrange(65, 97));
        Address::lemma_view_from_seq(s.subrange(97, 129));
        assert(s.subrange(129, 145).subrange(0, 8) =~= s.subrange(129, 137));
        assert(s.subrange(129, 145).subrange(8, 16) =~= s.subrange(137, 145));
        assert(record.spec_bytes() =~= s.subrange(0, 163));
        assert(Self::spec_unpack(input).unwrap().spec_pack(input) =~= input);
    }
}

impl AuctionState for AuctionV1 {
    open spec fn spec_fields(&self) -> AuctionV1 {
        *self
    }

    fn is_initialized(&self) -> (initialized: bool) {
        self.is_initialized
    }

    fn token_program_id(&self) -> (address: &Address) {
        &self.token_program_id
    }

    fn token_account(&self) -> (address: &Address) {
        &self.token
    }

    fn pool(&self) -> (address: &Address) {
        &self.pool
    }

    fn fee_account(&self) -> (address: &Address) {
        &self.fee_account
    }

    fn fees(&self) -> (fees: &AuctionFees) {
        &self.fees
    }

    fn nonce(&self) -> (nonce: u8) {
        self.nonce
    }

    fn start_timestamp(&self) -> (timestamp: UnixTimestamp) {
        self.start_timestamp
    }

    fn end_timestamp(&self) -> (timestamp: UnixTimestamp) {
        self.end_timestamp
    }

    fn canceled(&self) -> (canceled: u8) {
        self.canceled
    }
}

impl AuctionState for AuctionVersion {
    open spec fn spec_fields(&self) -> AuctionV1 {
        self.record()
    }

    fn is_initialized(&self) -> (initialized: bool) {
        match self {
            AuctionVersion::AuctionV1(record) => record.is_initialized,
        }
    }

    fn token_program_id(&self) -> (address: &Address) {
        match self {
            AuctionVersion::AuctionV1(record) => &record.token_program_id,
        }
    }

    fn token_account(&self) -> (address: &Address) {
        match self {
            AuctionVersion::AuctionV1(record) => &record.token,
        }
    }

    fn pool(&self) -> (address: &Address) {
        match self {
            AuctionVersion::AuctionV1(record) => &record.pool,
        }
    }

    fn fee_account(&self) -> (address: &Address) {
        match self {
            AuctionVersion::AuctionV1(record) => &record.fee_account,
        }
    }

    fn fees(&self) -> (fees: &AuctionFees) {
        match self {
            AuctionVersion::AuctionV1(record) => &record.fees,
        }
    }

    fn nonce(&self) -> (nonce: u8) {
        match self {
            AuctionVersion::AuctionV1(record) => record.nonce,
        }
    }

    fn start_timestamp(&self) -> (timestamp: UnixTimestamp) {
        match self {
            AuctionVersion::AuctionV1(record) => record.start_timestamp,
        }
    }

    fn end_timestamp(&self) -> (timestamp: UnixTimestamp) {
        match self {
            AuctionVersion::AuctionV1(record) => record.end_timestamp,
        }
    }

    fn canceled(&self) -> (canceled: u8) {
        match self {
            AuctionVersion::AuctionV1(record) => record.canceled,
        }
    }
}

impl PartialEq for AuctionV1 {
    fn eq(&self, other: &Self) -> (same: bool) {
        self.is_initialized == other.is_initialized && self.token_program_id
            == other.token_program_id && self.token == other.token && self.pool == other.pool
            && self.fee_account == other.fee_account && self.fees == other.fees && self.nonce
            == other.nonce && self.start_timestamp == other.start_timestamp
            && self.end_timestamp == other.end_timestamp && self.canceled == other.canceled
    }
}

impl vstd::std_specs::cmp::PartialEqSpecImpl for AuctionV1 {
    open spec fn obeys_eq_spec() -> bool {
        true
    }

    open spec fn eq_spec(&self, other: &Self) -> bool {
        *self == *other
    }
}

impl Eq for AuctionV1 {}

impl PartialEq for AuctionVersion {
    fn eq(&self, other: &Self) -> (same: bool) {
        match (self, other) {
            (AuctionVersion::AuctionV1(a), AuctionVersion::AuctionV1(b)) => *a == *b,
        }
    }
}

impl vstd::std_specs::cmp::PartialEqSpecImpl for AuctionVersion {
    open spec fn obeys_eq_spec() -> bool {
        true
    }

    open spec fn eq_spec(&self, other: &Self) -> bool {
        *self == *other
    }
}

impl Eq for AuctionVersion {}

impl Default for AuctionV1 {
    fn default() -> (record: AuctionV1)
        ensures
            !record.is_initialized,
            record.token_program_id@ == Address::spec_zeroes(),
            record.token@ == Address::spec_zeroes(),
            record.pool@ == Address::spec_zeroes(),
            record.fee_account@ == Address::spec_zeroes(),
            record.fees == (AuctionFees { auction_fee_numerator: 0, auction_fee_denominator: 0 }),
            record.nonce == 0,
            record.start_timestamp == 0,
            record.end_timestamp == 0,
            record.canceled == 0,
    {
        AuctionV1 {
            is_initialized: false,
            token_program_id: Address::default(),
            token: Address::default(),
            pool: Address::default(),
            fee_account: Address::default(),
            fees: AuctionFees::default(),
            nonce: 0,
            start_timestamp: 0,
            end_timestamp: 0,
            canceled: 0,
        }
    }
}

} // verus!
