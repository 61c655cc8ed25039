use property_ledger::marketplace::{
    cancel_listing, create_listing, execute_trade, initialize_marketplace, update_marketplace_fee,
    Listing, ListingStatus, MarketplaceError, TradeBalances,
};

fn authority() -> Vec<u8> {
    vec![1u8; 32]
}

fn treasury() -> Vec<u8> {
    vec![2u8; 32]
}

fn seller() -> Vec<u8> {
    vec![3u8; 32]
}

fn mint() -> Vec<u8> {
    vec![4u8; 32]
}

fn marketplace_with_listing(
    fee: u16,
    price_per_token: u64,
    token_amount: u64,
) -> (property_ledger::marketplace::Marketplace, Listing) {
    let mut m = initialize_marketplace(&authority(), &treasury(), fee, 100);
    let l = create_listing(&mut m, &seller(), &mint(), price_per_token, token_amount, 101).unwrap();
    (m, l)
}

#[test]
fn trade_example_splits_price_exactly() {
    // price_per_unit = 1000, amount = 5, fee = 250 bps
    let (mut m, mut l) = marketplace_with_listing(250, 1000, 10);
    let mut b = TradeBalances {
        buyer: 10_000,
        seller: 0,
        treasury: 0,
    };
    let s = execute_trade(&mut l, &mut m, &mut b, 5, 102).unwrap();
    assert_eq!(s.total_price, 5000);
    assert_eq!(s.fee, 125);
    assert_eq!(s.seller_amount, 4875);
    assert_eq!(s.seller_amount + s.fee, s.total_price);
    assert_eq!(b.buyer, 5000);
    assert_eq!(b.seller, 4875);
    assert_eq!(b.treasury, 125);
    assert_eq!(l.token_amount, 5);
    assert_eq!(l.status, ListingStatus::Active);
    assert_eq!(m.total_volume, 5000);
    assert_eq!(m.active_listings, 1);
}

#[test]
fn trade_fee_rounds_down() {
    // 3 * 333 = 999; fee = floor(999 * 250 / 10000) = floor(24.975) = 24
    let (mut m, mut l) = marketplace_with_listing(250, 333, 10);
    let mut b = TradeBalances {
        buyer: 1000,
        seller: 0,
        treasury: 0,
    };
    let s = execute_trade(&mut l, &mut m, &mut b, 3, 102).unwrap();
    assert_eq!(s.total_price, 999);
    assert_eq!(s.fee, 24);
    assert_eq!(s.seller_amount, 975);
}

#[test]
fn trade_of_all_units_completes_listing() {
    let (mut m, mut l) = marketplace_with_listing(100, 10, 4);
    let mut b = TradeBalances {
        buyer: 100,
        seller: 0,
        treasury: 0,
    };
    let s = execute_trade(&mut l, &mut m, &mut b, 4, 102).unwrap();
    assert_eq!(s.total_price, 40);
    assert_eq!(l.token_amount, 0);
    assert_eq!(l.status, ListingStatus::Completed);
    assert_eq!(m.active_listings, 0);
    // A completed listing accepts no further trades.
    let err = execute_trade(&mut l, &mut m, &mut b, 1, 103).unwrap_err();
    assert_eq!(err, MarketplaceError::ListingNotActive);
}

#[test]
fn trade_rejects_excessive_amount() {
    let (mut m, mut l) = marketplace_with_listing(100, 10, 4);
    let mut b = TradeBalances {
        buyer: 100,
        seller: 0,
        treasury: 0,
    };
    let err = execute_trade(&mut l, &mut m, &mut b, 5, 102).unwrap_err();
    assert_eq!(err, MarketplaceError::InsufficientTokenAmount);
    assert_eq!(l.token_amount, 4);
    assert_eq!(m.total_volume, 0);
}

#[test]
fn trade_rejects_price_overflow() {
    let (mut m, mut l) = marketplace_with_listing(100, u64::MAX, 10);
    let mut b = TradeBalances {
        buyer: 100,
        seller: 0,
        treasury: 0,
    };
    let err = execute_trade(&mut l, &mut m, &mut b, 2, 102).unwrap_err();
    assert_eq!(err, MarketplaceError::ArithmeticError);
    assert_eq!(b.buyer, 100);
}

#[test]
fn trade_rejects_fee_above_total() {
    // 20000 bps is a 200% fee: the checked subtraction must fail, never wrap.
    let (mut m, mut l) = marketplace_with_listing(20000, 1000, 10);
    let mut b = TradeBalances {
        buyer: 100_000,
        seller: 0,
        treasury: 0,
    };
    let err = execute_trade(&mut l, &mut m, &mut b, 5, 102).unwrap_err();
    assert_eq!(err, MarketplaceError::ArithmeticError);
    assert_eq!(l.token_amount, 10);
}

#[test]
fn trade_rejects_poor_buyer() {
    let (mut m, mut l) = marketplace_with_listing(250, 1000, 10);
    let mut b = TradeBalances {
        buyer: 4999,
        seller: 0,
        treasury: 0,
    };
    let err = execute_trade(&mut l, &mut m, &mut b, 5, 102).unwrap_err();
    assert_eq!(err, MarketplaceError::InsufficientFunds);
    assert_eq!(b.buyer, 4999);
    assert_eq!(b.seller, 0);
    assert_eq!(l.token_amount, 10);
    assert_eq!(m.total_volume, 0);
}

#[test]
fn active_listings_counts_create_complete_cancel() {
    let mut m = initialize_marketplace(&authority(), &treasury(), 100, 100);
    assert_eq!(m.active_listings, 0);
    let mut first = create_listing(&mut m, &seller(), &mint(), 10, 2, 101).unwrap();
    let mut second = create_listing(&mut m, &seller(), &mint(), 10, 2, 101).unwrap();
    assert_eq!(m.active_listings, 2);
    let mut b = TradeBalances {
        buyer: 100,
        seller: 0,
        treasury: 0,
    };
    execute_trade(&mut first, &mut m, &mut b, 2, 102).unwrap();
    assert_eq!(m.active_listings, 1);
    cancel_listing(&mut second, &mut m, &seller(), 103).unwrap();
    assert_eq!(m.active_listings, 0);
    // Closing again is rejected before the counter could wrap below zero.
    let err = cancel_listing(&mut second, &mut m, &seller(), 104).unwrap_err();
    assert_eq!(err, MarketplaceError::ListingNotActive);
    assert_eq!(m.active_listings, 0);
}

#[test]
fn cancel_by_stranger_is_unauthorized() {
    let (mut m, mut l) = marketplace_with_listing(100, 10, 4);
    let stranger = vec![9u8; 32];
    let err = cancel_listing(&mut l, &mut m, &stranger, 102).unwrap_err();
    assert_eq!(err, MarketplaceError::Unauthorized);
    assert_eq!(l.status, ListingStatus::Active);
    assert_eq!(m.active_listings, 1);
}

#[test]
fn cancel_by_seller_works() {
    let (mut m, mut l) = marketplace_with_listing(100, 10, 4);
    cancel_listing(&mut l, &mut m, &seller(), 102).unwrap();
    assert_eq!(l.status, ListingStatus::Cancelled);
    assert_eq!(l.token_amount, 4);
    assert_eq!(m.active_listings, 0);
}

#[test]
fn fee_update_rejects_values_above_cap() {
    let mut m = initialize_marketplace(&authority(), &treasury(), 250, 100);
    let err = update_marketplace_fee(&mut m, &authority(), 1001, 101).unwrap_err();
    assert_eq!(err, MarketplaceError::FeeTooHigh);
    assert_eq!(m.fee, 250);
    update_marketplace_fee(&mut m, &authority(), 1000, 102).unwrap();
    assert_eq!(m.fee, 1000);
}

#[test]
fn fee_update_by_stranger_is_unauthorized() {
    let mut m = initialize_marketplace(&authority(), &treasury(), 250, 100);
    let err = update_marketplace_fee(&mut m, &treasury(), 100, 101).unwrap_err();
    assert_eq!(err, MarketplaceError::Unauthorized);
    assert_eq!(m.fee, 250);
}
