//! The marketplace program: listings of fractional ownership units for
//! resale, the trade-settlement algorithm with its marketplace-fee split,
//! cancellation, and fee administration.
//!
//! Every transition validates all of its arithmetic and balance checks
//! before the first mutation, so a rejected invocation leaves every record
//! exactly as it was.

use crate::utils::ids_equal;
use vstd::prelude::*;
use vstd::slice::slice_to_vec;

verus! {

/// Global marketplace configuration and statistics.
#[derive(Clone, Debug, PartialEq, Eq)]
pub struct Marketplace {
    /// Identity allowed to administer the marketplace (32 bytes).
    pub authority: Vec<u8>,
    /// Identity that receives trade fees (32 bytes).
    pub treasury: Vec<u8>,
    /// Trade fee in basis points; the fee-update transition caps it at 1000.
    pub fee: u16,
    /// Number of currently active listings.
    pub active_listings: u64,
    /// Cumulative traded volume.
    pub total_volume: u64,
    pub created_at: i64,
    pub updated_at: i64,
}

/// One offer to sell fractional ownership units.
#[derive(Clone, Debug, PartialEq, Eq)]
pub struct Listing {
    /// Identity of the seller (32 bytes).
    pub seller: Vec<u8>,
    /// The unit-denominated asset reference being sold (32 bytes).
    pub mint: Vec<u8>,
    pub price_per_token: u64,
    /// Units still offered; decreases as trades execute.
    pub token_amount: u64,
    pub status: ListingStatus,
    pub created_at: i64,
    pub updated_at: i64,
}

#[derive(Clone, Copy, Debug, PartialEq, Eq, Structural)]
pub enum ListingStatus {
    Active,
    Completed,
    Cancelled,
}

#[derive(Clone, Copy, Debug, PartialEq, Eq, Structural)]
pub enum MarketplaceError {
    ListingNotActive,
    InsufficientTokenAmount,
    ArithmeticError,
    Unauthorized,
    InsufficientFunds,
    FeeTooHigh,
}

/// Value balances of the three parties to a trade, in the host's smallest
/// value unit.
#[derive(Clone, Copy, Debug, PartialEq, Eq, Structural)]
pub struct TradeBalances {
    pub buyer: u64,
    pub seller: u64,
    pub treasury: u64,
}

/// The amounts moved by one successful trade.
#[derive(Clone, Copy, Debug, PartialEq, Eq, Structural)]
pub struct TradeSettlement {
    /// What the buyer pays in all.
    pub total_price: u64,
    /// The marketplace's cut, sent to the treasury.
    pub fee: u64,
    /// What the seller receives.
    pub seller_amount: u64,
    /// Units transferred from seller to buyer.
    pub token_amount: u64,
}

/// Price of `amount` units at `price_per_token` each.
pub open spec fn spec_total_price(price_per_token: u64, amount: u64) -> int {
    price_per_token * amount
}

/// The marketplace fee: `floor(total * fee_bps / 10000)`.
pub open spec fn spec_fee_amount(total: int, fee_bps: u16) -> int {
    (total * fee_bps) / 10000
}

/// The checked-arithmetic failures that abort a trade: total price past the
/// integer range, a fee larger than the total price (a fee rate above 100%),
/// an active-listing count of zero when the listing would complete, or a
/// receiving balance or the volume counter overflowing.
pub open spec fn spec_trade_arith_fails(
    listing: Listing,
    marketplace: Marketplace,
    balances: TradeBalances,
    amount: u64,
) -> bool {
    let total = spec_total_price(listing.price_per_token, amount);
    let fee = spec_fee_amount(total, marketplace.fee);
    ||| total > u64::MAX
    ||| fee > total
    ||| (listing.token_amount == amount && marketplace.active_listings == 0)
    ||| marketplace.total_volume + total > u64::MAX
    ||| balances.seller + (total - fee) > u64::MAX
    ||| balances.treasury + fee > u64::MAX
}

/// Creates the marketplace configuration record with empty counters.
pub fn initialize_marketplace(
    authority: &[u8],
    treasury: &[u8],
    marketplace_fee: u16,
    now: i64,
) -> (m: Marketplace)
    ensures
        m.authority@ == authority@,
        m.treasury@ == treasury@,
        m.fee == marketplace_fee,
        m.active_listings == 0,
        m.total_volume == 0,
        m.created_at == now,
        m.updated_at == now,
{
    Marketplace {
        authority: slice_to_vec(authority),
        treasury: slice_to_vec(treasury),
        fee: marketplace_fee,
        active_listings: 0,
        total_volume: 0,
        created_at: now,
        updated_at: now,
    }
}

/// Creates an active listing and counts it in the marketplace statistics.
pub fn create_listing(
    marketplace: &mut Marketplace,
    seller: &[u8],
    mint: &[u8],
    price_per_token: u64,
    token_amount: u64,
    now: i64,
) -> (r: Result<Listing, MarketplaceError>)
    ensures
        match r {
            Ok(l) => {
                &&& old(marketplace).active_listings < u64::MAX
                &&& l.seller@ == seller@
                &&& l.mint@ == mint@
                &&& l.price_per_token == price_per_token
                &&& l.token_amount == token_amount
                &&& l.status == ListingStatus::Active
                &&& l.created_at == now
                &&& l.updated_at == now
                &&& final(marketplace).active_listings == old(marketplace).active_listings + 1
                &&& final(marketplace).updated_at == now
                &&& final(marketplace).authority == old(marketplace).authority
                &&& final(marketplace).treasury == old(marketplace).treasury
                &&& final(marketplace).fee == old(marketplace).fee
                &&& final(marketplace).total_volume == old(marketplace).total_volume
                &&& final(marketplace).created_at == old(marketplace).created_at
            },
            Err(e) => {
                &&& e == MarketplaceError::ArithmeticError
                &&& old(marketplace).active_listings == u64::MAX
                &&& *final(marketplace) == *old(marketplace)
            },
        },
{
    if marketplace.active_listings == u64::MAX {
        return Err(MarketplaceError::ArithmeticError);
    }
    marketplace.active_listings = marketplace.active_listings + 1;
    marketplace.updated_at = now;
    Ok(
        Listing {
            seller: slice_to_vec(seller),
            mint: slice_to_vec(mint),
            price_per_token,
            token_amount,
            status: ListingStatus::Active,
            created_at: now,
            updated_at: now,
        },
    )
}

/// Executes a trade of `token_amount` units against an active listing.
///
/// The buyer pays `total_price = price_per_token * token_amount`; the
/// marketplace keeps `fee = floor(total_price * fee_bps / 10000)` for its
/// treasury and the seller receives the rest, so the two parts always sum
/// to the total exactly.  Every arithmetic step is checked and every check
/// runs before the first mutation: a rejected trade changes nothing.
pub fn execute_trade(
    listing: &mut Listing,
    marketplace: &mut Marketplace,
    balances: &mut TradeBalances,
    token_amount: u64,
    now: i64,
) -> (r: Result<TradeSettlement, MarketplaceError>)
    ensures
        match r {
            Ok(s) => {
                &&& old(listing).status == ListingStatus::Active
                &&& token_amount <= old(listing).token_amount
                &&& !spec_trade_arith_fails(*old(listing), *old(marketplace), *old(balances), token_amount)
                &&& old(balances).buyer >= s.total_price
                &&& s.total_price == spec_total_price(old(listing).price_per_token, token_amount)
                &&& s.fee == spec_fee_amount(s.total_price as int, old(marketplace).fee)
                &&& s.seller_amount + s.fee == s.total_price
                &&& s.token_amount == token_amount
                &&& final(listing).token_amount == old(listing).token_amount - token_amount
                &&& (final(listing).status == ListingStatus::Completed <==> final(listing).token_amount == 0)
                &&& (final(listing).token_amount > 0 ==> final(listing).status
                    == ListingStatus::Active)
                &&& final(listing).updated_at == now
                &&& final(listing).seller == old(listing).seller
                &&& final(listing).mint == old(listing).mint
                &&& final(listing).price_per_token == old(listing).price_per_token
                &&& final(listing).created_at == old(listing).created_at
                &&& final(marketplace).active_listings == if final(listing).token_amount == 0 {
                    old(marketplace).active_listings - 1
                } else {
                    old(marketplace).active_listings as int
                }
                &&& final(marketplace).total_volume == old(marketplace).total_volume
                    + s.total_price
                &&& final(marketplace).updated_at == now
                &&& final(marketplace).authority == old(marketplace).authority
                &&& final(marketplace).treasury == old(marketplace).treasury
                &&& final(marketplace).fee == old(marketplace).fee
                &&& final(marketplace).created_at == old(marketplace).created_at
                &&& final(balances).buyer == old(balances).buyer - s.total_price
                &&& final(balances).seller == old(balances).seller + s.seller_amount
                &&& final(balances).treasury == old(balances).treasury + s.fee
            },
            Err(e) => {
                &&& *final(listing) == *old(listing)
                &&& *final(marketplace) == *old(marketplace)
                &&& *final(balances) == *old(balances)
                &&& (e == MarketplaceError::ListingNotActive || e
                    == MarketplaceError::InsufficientTokenAmount || e
                    == MarketplaceError::ArithmeticError || e
                    == MarketplaceError::InsufficientFunds)
                &&& (e == MarketplaceError::ListingNotActive <==> old(listing).status
                    != ListingStatus::Active)
                &&& (e == MarketplaceError::InsufficientTokenAmount <==> old(listing).status
                    == ListingStatus::Active && token_amount > old(listing).token_amount)
                &&& (e == MarketplaceError::ArithmeticError <==> old(listing).status
                    == ListingStatus::Active && token_amount <= old(listing).token_amount
                    && spec_trade_arith_fails(
                    *old(listing),
                    *old(marketplace),
                    *old(balances),
                    token_amount,
                ))
                &&& (e == MarketplaceError::InsufficientFunds <==> old(listing).status
                    == ListingStatus::Active && token_amount <= old(listing).token_amount
                    && !spec_trade_arith_fails(
                    *old(listing),
                    *old(marketplace),
                    *old(balances),
                    token_amount,
                ) && old(balances).buyer < spec_total_price(
                    old(listing).price_per_token,
                    token_amount,
                ))
            },
        },
{
    if listing.status != ListingStatus::Active {
        return Err(MarketplaceError::ListingNotActive);
    }
    if token_amount > listing.token_amount {
        return Err(MarketplaceError::InsufficientTokenAmount);
    }
    let total_price = match listing.price_per_token.checked_mul(token_amount) {
        Some(t) => t,
        None => {
            return Err(MarketplaceError::ArithmeticError);
        },
    };
    proof {
        vstd::arithmetic::mul::lemma_mul_upper_bound(
            total_price as int,
            u64::MAX as int,
            marketplace.fee as int,
            u16::MAX as int,
        );
    }
    let fee_wide = (total_price as u128) * (marketplace.fee as u128) / 10000u128;
    assert(fee_wide == spec_fee_amount(total_price as int, marketplace.fee));
    if fee_wide > total_price as u128 {
        return Err(MarketplaceError::ArithmeticError);
    }
    let fee = fee_wide as u64;
    let seller_amount = total_price - fee;
    let remaining = listing.token_amount - token_amount;
    if remaining == 0 && marketplace.active_listings == 0 {
        return Err(MarketplaceError::ArithmeticError);
    }
    if marketplace.total_volume > u64::MAX - total_price {
        return Err(MarketplaceError::ArithmeticError);
    }
    if balances.seller > u64::MAX - seller_amount {
        return Err(MarketplaceError::ArithmeticError);
    }
    if balances.treasury > u64::MAX - fee {
        return Err(MarketplaceError::ArithmeticError);
    }
    if balances.buyer < total_price {
        return Err(MarketplaceError::InsufficientFunds);
    }
    listing.token_amount = remaining;
    if remaining == 0 {
        listing.status = ListingStatus::Completed;
        marketplace.active_listings = marketplace.active_listings - 1;
    }
    marketplace.total_volume = marketplace.total_volume + total_price;
    listing.updated_at = now;
    marketplace.updated_at = now;
    balances.buyer = balances.buyer - total_price;
    balances.seller = balances.seller + seller_amount;
    balances.treasury = balances.treasury + fee;
    Ok(TradeSettlement { total_price, fee, seller_amount, token_amount })
}

/// Cancels an active listing.  Only the listing's seller may cancel, and a
/// rejected attempt leaves the listing and the marketplace unchanged.
pub fn cancel_listing(
    listing: &mut Listing,
    marketplace: &mut Marketplace,
    seller: &[u8],
    now: i64,
) -> (r: Result<(), MarketplaceError>)
    ensures
        match r {
            Ok(()) => {
                &&& old(listing).seller@ == seller@
                &&& old(listing).status == ListingStatus::Active
                &&& old(marketplace).active_listings >= 1
                &&& final(listing).status == ListingStatus::Cancelled
                &&& final(listing).updated_at == now
                &&& final(listing).seller == old(listing).seller
                &&& final(listing).mint == old(listing).mint
                &&& final(listing).price_per_token == old(listing).price_per_token
                &&& final(listing).token_amount == old(listing).token_amount
                &&& final(listing).created_at == old(listing).created_at
                &&& final(marketplace).active_listings == old(marketplace).active_listings - 1
                &&& final(marketplace).updated_at == now
                &&& final(marketplace).authority == old(marketplace).authority
                &&& final(marketplace).treasury == old(marketplace).treasury
                &&& final(marketplace).fee == old(marketplace).fee
                &&& final(marketplace).total_volume == old(marketplace).total_volume
                &&& final(marketplace).created_at == old(marketplace).created_at
            },
            Err(e) => {
                &&& *final(listing) == *old(listing)
                &&& *final(marketplace) == *old(marketplace)
                &&& (e == MarketplaceError::Unauthorized || e == MarketplaceError::ListingNotActive
                    || e == MarketplaceError::ArithmeticError)
                &&& (e == MarketplaceError::Unauthorized <==> old(listing).seller@ != seller@)
                &&& (e == MarketplaceError::ListingNotActive <==> old(listing).seller@ == seller@
                    && old(listing).status != ListingStatus::Active)
                &&& (e == MarketplaceError::ArithmeticError <==> old(listing).seller@ == seller@
                    && old(listing).status == ListingStatus::Active
                    && old(marketplace).active_listings == 0)
            },
        },
{
    if !ids_equal(listing.seller.as_slice(), seller) {
        return Err(MarketplaceError::Unauthorized);
    }
    if listing.status != ListingStatus::Active {
        return Err(MarketplaceError::ListingNotActive);
    }
    if marketplace.active_listings == 0 {
        return Err(MarketplaceError::ArithmeticError);
    }
    listing.status = ListingStatus::Cancelled;
    listing.updated_at = now;
    marketplace.active_listings = marketplace.active_listings - 1;
    marketplace.updated_at = now;
    Ok(())
}

/// Updates the marketplace fee.  Only the marketplace authority may do so,
/// any value above 1000 basis points is rejected, and a rejected update
/// leaves the prior fee unchanged.
pub fn update_marketplace_fee(
    marketplace: &mut Marketplace,
    authority: &[u8],
    fee: u16,
    now: i64,
) -> (r: Result<(), MarketplaceError>)
    ensures
        match r {
            Ok(()) => {
                &&& old(marketplace).authority@ == authority@
                &&& fee <= 1000
                &&& final(marketplace).fee == fee
                &&& final(marketplace).updated_at == now
                &&& final(marketplace).authority == old(marketplace).authority
                &&& final(marketplace).treasury == old(marketplace).treasury
                &&& final(marketplace).active_listings == old(marketplace).active_listings
                &&& final(marketplace).total_volume == old(marketplace).total_volume
                &&& final(marketplace).created_at == old(marketplace).created_at
            },
            Err(e) => {
                &&& *final(marketplace) == *old(marketplace)
                &&& (e == MarketplaceError::Unauthorized || e == MarketplaceError::FeeTooHigh)
                &&& (e == MarketplaceError::Unauthorized <==> old(marketplace).authority@
                    != authority@)
                &&& (e == MarketplaceError::FeeTooHigh <==> old(marketplace).authority@
                    == authority@ && fee > 1000)
            },
        },
{
    if !ids_equal(marketplace.authority.as_slice(), authority) {
        return Err(MarketplaceError::Unauthorized);
    }
    if fee > 1000 {
        return Err(MarketplaceError::FeeTooHigh);
    }
    marketplace.fee = fee;
    marketplace.updated_at = now;
    Ok(())
}

/// One event in the life of the active-listing counter: a listing created,
/// or a listing leaving the active state by completion or cancellation.
pub ghost enum ListingEvent {
    Create,
    Close,
}

/// The active-listing count after a sequence of events, starting from the
/// freshly initialized marketplace's count of zero.
pub open spec fn listings_after(events: Seq<ListingEvent>) -> int
    decreases events.len(),
{
    if events.len() == 0 {
        0
    } else {
        listings_after(events.drop_last()) + match events.last() {
            ListingEvent::Create => 1int,
            ListingEvent::Close => -1int,
        }
    }
}

/// Whether a sequence of events can actually happen: a listing completes or
/// is cancelled only while the count is positive.  This is exactly what the
/// transition contracts enforce: `create_listing` increments the count, and
/// `execute_trade` and `cancel_listing` return `ArithmeticError` — mutating
/// nothing — rather than decrement a zero count.
pub open spec fn listing_events_ok(events: Seq<ListingEvent>) -> bool
    decreases events.len(),
{
    if events.len() == 0 {
        true
    } else {
        &&& listing_events_ok(events.drop_last())
        &&& (events.last() is Close ==> listings_after(events.drop_last()) >= 1)
    }
}

/// The active-listing count never goes negative across any sequence of
/// create, complete and cancel operations.
pub proof fn lemma_active_listings_never_negative(events: Seq<ListingEvent>)
    requires
        listing_events_ok(events),
    ensures
        listings_after(events) >= 0,
    decreases events.len(),
{
    if events.len() > 0 {
        lemma_active_listings_never_negative(events.drop_last());
    }
}

} // verus!
