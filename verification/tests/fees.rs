//! The fee formula on concrete values, and its failure mode.

use carbon::error::Error;
use carbon::keys::Key;
use carbon::state::fee_config::FeeConfig;
use carbon::state::listing::Listing;

fn listing_with(price: u64, bps: u16) -> Listing {
    Listing {
        bump: 0,
        version: 1,
        marketplace_authority: Key::from_bytes([1; 32]),
        seller: Key::from_bytes([2; 32]),
        id: [3; 32],
        is_virtual: false,
        currency_mint: Key::from_bytes([4; 32]),
        collection_config: Key::from_bytes([5; 32]),
        price,
        expiry: 1_000,
        fee_config: FeeConfig {
            fee_account: Key::from_bytes([6; 32]),
            bps,
        },
    }
}

#[test]
fn fee_is_floor_of_price_times_bps() {
    assert_eq!(listing_with(1000, 250).get_fee_amount().unwrap(), 25);
    assert_eq!(listing_with(999, 250).get_fee_amount().unwrap(), 24);
    assert_eq!(listing_with(1, 9_999).get_fee_amount().unwrap(), 0);
    assert_eq!(listing_with(10_000, 1).get_fee_amount().unwrap(), 1);
}

#[test]
fn zero_rate_charges_exactly_zero() {
    assert_eq!(listing_with(u64::MAX, 0).get_fee_amount().unwrap(), 0);
}

#[test]
fn full_rate_charges_the_whole_price() {
    assert_eq!(
        listing_with(123_456, 10_000).get_fee_amount().unwrap(),
        123_456
    );
}

#[test]
fn fee_that_overflows_the_base_units_is_an_error() {
    assert_eq!(
        listing_with(u64::MAX, u16::MAX).get_fee_amount(),
        Err(Error::OverflowError)
    );
}
