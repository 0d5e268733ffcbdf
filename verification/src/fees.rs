//! The fee schedule of an auction and the fee arithmetic.

use crate::error::{AuctionError, Fault};
use crate::wire::{read_u64, spec_write, write_u64};
use vstd::bytes::{
    lemma_auto_spec_u64_to_from_le_bytes, spec_u64_from_le_bytes, spec_u64_to_le_bytes,
};
use vstd::prelude::*;

verus! {

/// The fee owed on `token_amount` at the rate `fee_numerator /
/// fee_denominator`: nothing when the rate or the amount is zero, otherwise
/// the floored proportional share, but never less than one unit.
pub open spec fn fee_of(token_amount: nat, fee_numerator: nat, fee_denominator: nat) -> nat {
    if fee_numerator == 0 || token_amount == 0 {
        0
    } else if (token_amount * fee_numerator) / fee_denominator >= 1 {
        (token_amount * fee_numerator) / fee_denominator
    } else {
        1
    }
}

/// Whether the fee can be computed in 128 bits: the product must fit and
/// the denominator must not be zero, unless nothing is owed anyway.
pub open spec fn fee_computable(token_amount: nat, fee_numerator: nat, fee_denominator: nat) -> bool {
    fee_numerator == 0 || token_amount == 0 || (token_amount * fee_numerator <= u128::MAX
        && fee_denominator != 0)
}

/// What `calculate_fee` returns.
pub open spec fn spec_calculate_fee(
    token_amount: u128,
    fee_numerator: u128,
    fee_denominator: u128,
) -> Option<u128> {
    if fee_computable(token_amount as nat, fee_numerator as nat, fee_denominator as nat) {
        Some(fee_of(token_amount as nat, fee_numerator as nat, fee_denominator as nat) as u128)
    } else {
        None
    }
}

/// Whether a fee rate is acceptable: no fee at all (`0 / 0`), or a proper
/// fraction.
pub open spec fn fraction_valid(numerator: u64, denominator: u64) -> bool {
    (numerator == 0 && denominator == 0) || numerator < denominator
}

/// The fee on `token_amount`, or `None` where it cannot be computed in 128
/// bits.
pub fn calculate_fee(token_amount: u128, fee_numerator: u128, fee_denominator: u128) -> (fee:
    Option<u128>)
    ensures
        fee == spec_calculate_fee(token_amount, fee_numerator, fee_denominator),
        fee matches Some(f) ==> f == fee_of(
            token_amount as nat,
            fee_numerator as nat,
            fee_denominator as nat,
        ),
{
    if fee_numerator == 0 || token_amount == 0 {
        Some(0)
    } else {
        let product = token_amount.checked_mul(fee_numerator)?;
        let fee = product.checked_div(fee_denominator)?;
        proof {
            lemma_share_bounded(product as nat, fee_denominator as nat);
        }
        if fee == 0 {
            Some(1)  // minimum fee of one token
        } else {
            Some(fee)
        }
    }
}

/// A floored quotient by a positive number is no more than the dividend.
proof fn lemma_share_bounded(product: nat, denominator: nat)
    requires
        denominator > 0,
    ensures
        product / denominator <= product,
{
    vstd::arithmetic::div_mod::lemma_div_is_ordered_by_denominator(
        product as int,
        1,
        denominator as int,
    );
}

/// The fee never falls when the amount grows, and where the fee on the
/// larger amount can be computed, so can the fee on the smaller.
pub proof fn lemma_fee_monotonic(
    smaller: nat,
    larger: nat,
    fee_numerator: nat,
    fee_denominator: nat,
)
    requires
        smaller <= larger,
        (fee_numerator == 0 && fee_denominator == 0) || fee_numerator < fee_denominator,
    ensures
        fee_of(smaller, fee_numerator, fee_denominator) <= fee_of(
            larger,
            fee_numerator,
            fee_denominator,
        ),
        fee_computable(larger, fee_numerator, fee_denominator) ==> fee_computable(
            smaller,
            fee_numerator,
            fee_denominator,
        ),
{
    if fee_numerator != 0 && smaller != 0 {
        vstd::arithmetic::mul::lemma_mul_inequality(
            smaller as int,
            larger as int,
            fee_numerator as int,
        );
        vstd::arithmetic::div_mod::lemma_div_is_ordered(
            (smaller * fee_numerator) as int,
            (larger * fee_numerator) as int,
            fee_denominator as int,
        );
    }
}

/// Of two amounts under one acceptable rate, where `calculate_fee` gives a
/// fee on the larger it gives one on the smaller too, and that fee is no
/// larger.
pub proof fn lemma_calculate_fee_monotonic(
    smaller: u128,
    larger: u128,
    fee_numerator: u128,
    fee_denominator: u128,
)
    requires
        smaller <= larger,
        (fee_numerator == 0 && fee_denominator == 0) || fee_numerator < fee_denominator,
    ensures
        spec_calculate_fee(larger, fee_numerator, fee_denominator) matches Some(above)
            ==> spec_calculate_fee(smaller, fee_numerator, fee_denominator) matches Some(below)
            && below <= above,
{
    lemma_fee_monotonic(
        smaller as nat,
        larger as nat,
        fee_numerator as nat,
        fee_denominator as nat,
    );
    if fee_computable(larger as nat, fee_numerator as nat, fee_denominator as nat) {
        lemma_fee_fits(smaller as nat, fee_numerator as nat, fee_denominator as nat);
        lemma_fee_fits(larger as nat, fee_numerator as nat, fee_denominator as nat);
    }
}

/// Under an acceptable rate, the fee that `calculate_fee` gives is zero
/// exactly when the rate or the amount is zero, and is otherwise the
/// larger of one and the floored share.
pub proof fn lemma_calculate_fee_value(
    token_amount: u128,
    fee_numerator: u128,
    fee_denominator: u128,
)
    requires
        (fee_numerator == 0 && fee_denominator == 0) || fee_numerator < fee_denominator,
    ensures
        spec_calculate_fee(token_amount, fee_numerator, fee_denominator) matches Some(fee) ==> (fee
            == 0 <==> fee_numerator == 0 || token_amount == 0) && (fee_numerator != 0
            && token_amount != 0 ==> fee == vstd::math::max(
            1,
            (token_amount * fee_numerator) / (fee_denominator as int),
        )),
{
    if fee_computable(token_amount as nat, fee_numerator as nat, fee_denominator as nat) {
        lemma_fee_fits(token_amount as nat, fee_numerator as nat, fee_denominator as nat);
    }
}

/// A fee that can be computed in 128 bits fits 128 bits.
proof fn lemma_fee_fits(token_amount: nat, fee_numerator: nat, fee_denominator: nat)
    requires
        fee_computable(token_amount, fee_numerator, fee_denominator),
        token_amount <= u128::MAX,
    ensures
        fee_of(token_amount, fee_numerator, fee_denominator) <= u128::MAX,
{
    if fee_numerator != 0 && token_amount != 0 {
        lemma_share_bounded(token_amount * fee_numerator, fee_denominator);
    }
}

/// The fee is zero exactly when the rate or the amount is zero, and is
/// otherwise the larger of one and the floored share.
pub proof fn lemma_fee_zero_iff(token_amount: nat, fee_numerator: nat, fee_denominator: nat)
    ensures
        fee_of(token_amount, fee_numerator, fee_denominator) == 0 <==> (fee_numerator == 0
            || token_amount == 0),
        fee_numerator != 0 && token_amount != 0 ==> fee_of(
            token_amount,
            fee_numerator,
            fee_denominator,
        ) == vstd::math::max(1, ((token_amount * fee_numerator) / fee_denominator) as int),
{
}

/// Accepts `0 / 0` and every proper fraction, and refuses the rest.
pub fn validate_fraction(numerator: u64, denominator: u64) -> (verdict: Result<(), AuctionError>)
    ensures
        verdict == if fraction_valid(numerator, denominator) {
            Ok::<(), AuctionError>(())
        } else {
            Err(AuctionError::InvalidFee)
        },
        verdict is Err <==> (numerator >= denominator && denominator != 0) || (numerator != 0
            && denominator == 0),
{
    if denominator == 0 && numerator == 0 {
        Ok(())
    } else if numerator >= denominator {
        Err(AuctionError::InvalidFee)
    } else {
        Ok(())
    }
}

/// The fee rate of an auction.
#[derive(Clone, Copy, Debug, PartialEq, Eq, Structural)]
pub struct AuctionFees {
    /// Numerator of the withdrawal fee.
    pub auction_fee_numerator: u64,
    /// Denominator of the withdrawal fee.
    pub auction_fee_denominator: u64,
}

impl Default for AuctionFees {
    fn default() -> (fees: AuctionFees)
        ensures
            fees == (AuctionFees { auction_fee_numerator: 0, auction_fee_denominator: 0 }),
    {
        AuctionFees { auction_fee_numerator: 0, auction_fee_denominator: 0 }
    }
}

impl AuctionFees {
    /// Number of bytes a fee schedule takes in a buffer.
    pub const LEN: usize = 16;

    /// The sixteen bytes of a fee schedule: numerator, then denominator,
    /// each as eight little-endian bytes.
    pub open spec fn spec_bytes(self) -> Seq<u8> {
        spec_u64_to_le_bytes(self.auction_fee_numerator) + spec_u64_to_le_bytes(
            self.auction_fee_denominator,
        )
    }

    /// The fee schedule that the first sixteen bytes of `s` hold.
    pub open spec fn spec_from_bytes(s: Seq<u8>) -> AuctionFees {
        AuctionFees {
            auction_fee_numerator: spec_u64_from_le_bytes(s.subrange(0, 8)),
            auction_fee_denominator: spec_u64_from_le_bytes(s.subrange(8, 16)),
        }
    }

    /// Whether the schedule is acceptable.
    pub open spec fn spec_valid(self) -> bool {
        fraction_valid(self.auction_fee_numerator, self.auction_fee_denominator)
    }

    /// The withdrawal fee on `pool_tokens`.
    pub fn auction_fee(&self, pool_tokens: u128) -> (fee: Option<u128>)
        ensures
            fee == spec_calculate_fee(
                pool_tokens,
                self.auction_fee_numerator as u128,
                self.auction_fee_denominator as u128,
            ),
    {
        calculate_fee(
            pool_tokens,
            u128::try_from(self.auction_fee_numerator).ok()?,
            u128::try_from(self.auction_fee_denominator).ok()?,
        )
    }

    /// Accepts the schedule if it asks no fee or a proper fraction.
    pub fn validate(&self) -> (verdict: Result<(), AuctionError>)
        ensures
            verdict == if self.spec_valid() {
                Ok::<(), AuctionError>(())
            } else {
                Err(AuctionError::InvalidFee)
            },
    {
        validate_fraction(self.auction_fee_numerator, self.auction_fee_denominator)?;
        Ok(())
    }

    /// A fee schedule has no uninitialized form.
    pub fn is_initialized(&self) -> (initialized: bool)
        ensures
            initialized,
    {
        true
    }

    /// Writes the schedule into the first sixteen bytes of `output`.
    pub fn pack_into_slice(&self, output: &mut [u8])
        requires
            old(output)@.len() >= 16,
        ensures
            final(output)@ == spec_write(old(output)@, 0, self.spec_bytes()),
    {
        write_u64(output, 0, self.auction_fee_numerator);
        write_u64(output, 8, self.auction_fee_denominator);
        proof {
            lemma_auto_spec_u64_to_from_le_bytes();
            assert(output@ =~= spec_write(old(output)@, 0, self.spec_bytes()));
        }
    }

    /// Reads a schedule from the first sixteen bytes of `input`.
    pub fn unpack_from_slice(input: &[u8]) -> (fees: Result<AuctionFees, Fault>)
        requires
            input@.len() >= 16,
        ensures
            fees == Ok::<AuctionFees, Fault>(AuctionFees::spec_from_bytes(input@)),
    {
        Ok(
            AuctionFees {
                auction_fee_numerator: read_u64(input, 0),
                auction_fee_denominator: read_u64(input, 8),
            },
        )
    }

    /// Reads a schedule from a buffer of exactly sixteen bytes.
    pub fn unpack_unchecked(input: &[u8]) -> (fees: Result<AuctionFees, Fault>)
        ensures
            fees == if input@.len() == 16 {
                Ok::<AuctionFees, Fault>(AuctionFees::spec_from_bytes(input@))
            } else {
                Err(Fault::InvalidAccountData)
            },
    {
        if input.len() != AuctionFees::LEN {
            return Err(Fault::InvalidAccountData);
        }
        AuctionFees::unpack_from_slice(input)
    }

    /// Sixteen bytes written from a schedule read back as that schedule.
    pub proof fn lemma_bytes_round_trip(self)
        ensures
            self.spec_bytes().len() == 16,
            AuctionFees::spec_from_bytes(self.spec_bytes()) == self,
    {
        lemma_auto_spec_u64_to_from_le_bytes();
        let s = self.spec_bytes();
        assert(s.subrange(0, 8) =~= spec_u64_to_le_bytes(self.auction_fee_numerator));
        assert(s.subrange(8, 16) =~= spec_u64_to_le_bytes(self.auction_fee_denominator));
    }
}

} // verus!
