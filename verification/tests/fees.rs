use auction::error::{AuctionError, Fault};
use auction::fees::{calculate_fee, validate_fraction, AuctionFees};

fn schedule(numerator: u64, denominator: u64) -> AuctionFees {
    AuctionFees { auction_fee_numerator: numerator, auction_fee_denominator: denominator }
}

#[test]
fn fee_is_zero_without_rate_or_amount() {
    assert_eq!(calculate_fee(1_000, 0, 100), Some(0));
    assert_eq!(calculate_fee(1_000, 0, 0), Some(0));
    assert_eq!(calculate_fee(0, 5, 100), Some(0));
    assert_eq!(calculate_fee(0, 5, 0), Some(0));
}

#[test]
fn fee_is_floored_share() {
    assert_eq!(calculate_fee(1_000, 1, 100), Some(10));
    assert_eq!(calculate_fee(1_999, 1, 100), Some(19));
    assert_eq!(calculate_fee(300, 2, 3), Some(200));
    assert_eq!(calculate_fee(100, 1, 100), Some(1));
}

#[test]
fn fee_is_at_least_one_when_owed() {
    assert_eq!(calculate_fee(50, 1, 100), Some(1));
    assert_eq!(calculate_fee(1, 1, u64::MAX as u128), Some(1));
    assert_eq!(calculate_fee(99, 1, 100), Some(1));
}

#[test]
fn fee_fails_on_overflow_and_zero_denominator() {
    assert_eq!(calculate_fee(u128::MAX, 2, 3), None);
    assert_eq!(calculate_fee(5, 1, 0), None);
    assert_eq!(calculate_fee(u128::MAX, 1, 1), Some(u128::MAX));
}

#[test]
fn fee_never_falls_with_the_amount() {
    let mut last = 0u128;
    for amount in 0u128..2_000 {
        let fee = calculate_fee(amount, 3, 1_000).unwrap();
        assert!(fee >= last);
        assert_eq!(fee == 0, amount == 0);
        last = fee;
    }
}

#[test]
fn fraction_rules() {
    assert_eq!(validate_fraction(0, 0), Ok(()));
    assert_eq!(validate_fraction(0, 1), Ok(()));
    assert_eq!(validate_fraction(1, 100), Ok(()));
    assert_eq!(validate_fraction(u64::MAX - 1, u64::MAX), Ok(()));
    assert_eq!(validate_fraction(1, 1), Err(AuctionError::InvalidFee));
    assert_eq!(validate_fraction(2, 1), Err(AuctionError::InvalidFee));
    assert_eq!(validate_fraction(1, 0), Err(AuctionError::InvalidFee));
    assert_eq!(validate_fraction(u64::MAX, u64::MAX), Err(AuctionError::InvalidFee));
}

#[test]
fn schedule_validation_follows_the_fraction() {
    assert_eq!(schedule(0, 0).validate(), Ok(()));
    assert_eq!(schedule(1, 100).validate(), Ok(()));
    assert_eq!(schedule(100, 100).validate(), Err(AuctionError::InvalidFee));
    assert_eq!(schedule(7, 0).validate(), Err(AuctionError::InvalidFee));
}

#[test]
fn schedule_fee_uses_its_own_rate() {
    assert_eq!(schedule(1, 100).auction_fee(50), Some(1));
    assert_eq!(schedule(1, 100).auction_fee(5_000), Some(50));
    assert_eq!(schedule(0, 0).auction_fee(5_000), Some(0));
    assert_eq!(schedule(1, 0).auction_fee(5_000), None);
    assert_eq!(schedule(u64::MAX, 1).auction_fee(u128::MAX), None);
}

#[test]
fn schedule_is_always_initialized() {
    assert!(schedule(0, 0).is_initialized());
    assert_eq!(AuctionFees::default(), schedule(0, 0));
    assert_eq!(AuctionFees::LEN, 16);
}

#[test]
fn schedule_layout_is_two_little_endian_words() {
    let mut buffer = [0xEEu8; 20];
    schedule(0x0102_0304_0506_0708, 0x1112_1314_1516_1718).pack_into_slice(&mut buffer);
    assert_eq!(
        buffer,
        [
            0x08, 0x07, 0x06, 0x05, 0x04, 0x03, 0x02, 0x01, 0x18, 0x17, 0x16, 0x15, 0x14, 0x13,
            0x12, 0x11, 0xEE, 0xEE, 0xEE, 0xEE
        ]
    );
    assert_eq!(
        AuctionFees::unpack_from_slice(&buffer),
        Ok(schedule(0x0102_0304_0506_0708, 0x1112_1314_1516_1718))
    );
}

#[test]
fn schedule_unchecked_wants_sixteen_bytes() {
    let mut buffer = [0u8; 16];
    schedule(1, 100).pack_into_slice(&mut buffer);
    assert_eq!(AuctionFees::unpack_unchecked(&buffer), Ok(schedule(1, 100)));
    assert_eq!(AuctionFees::unpack_unchecked(&buffer[..15]), Err(Fault::InvalidAccountData));
    assert_eq!(AuctionFees::unpack_unchecked(&[0u8; 17]), Err(Fault::InvalidAccountData));
}
