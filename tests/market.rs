use invoice_manager::{
    cancel_listing, cancel_listing_v2, create_listing, create_listing_v2, fulfill_listing,
    fulfill_listing_v2, trade_total, Address, Authority, CancelListing, CancelListingV2,
    CreateListing, CreateListingV2, FulfillListing, FulfillListingV2, Invoice, InvoiceError,
    InvoiceStatus, Listing, ListingCanceledV1, ListingCanceledV2, ListingFulfilledV1,
    ListingFulfilledV2, Mint, TokenAccount, TokenOp,
};

fn addr(n: u8) -> Address {
    Address::new([n; 32])
}

fn holding(key: u8, mint: Address, owner: Address) -> TokenAccount {
    TokenAccount {
        key: addr(key),
        mint,
        owner,
        amount: 0,
        delegate: None,
        delegated_amount: 0,
    }
}

const SELLER: u8 = 1;
const USDC: u8 = 2;
const BUYER: u8 = 4;
const SHARES: u8 = 6;
const INVOICE_KEY: u8 = 7;
const LISTING_KEY: u8 = 8;
const MARKET: u8 = 9;

fn invoice() -> Invoice {
    Invoice {
        seller: addr(SELLER),
        amount: 1_000_000,
        metadata_hash: String::from("QmHash"),
        due_date: 1_700_000_000,
        status: InvoiceStatus::Funded,
        investor: addr(SELLER),
        funded_amount: 1_000_000,
        usdc_mint: addr(USDC),
        escrow_bump: 254,
        shares_mint: addr(SHARES),
    }
}

fn blank_listing() -> Listing {
    Listing {
        invoice: Address::zero(),
        seller: Address::zero(),
        shares_mint: Address::zero(),
        usdc_mint: Address::zero(),
        price: 0,
        remaining_qty: 0,
        bump: 0,
        market_bump: 0,
    }
}

fn listed(qty: u64, price: u64) -> Listing {
    let mut ctx = CreateListingV2 {
        invoice_key: addr(INVOICE_KEY),
        invoice: invoice(),
        seller: addr(SELLER),
        shares_mint: addr(SHARES),
        usdc_mint: addr(USDC),
        listing: blank_listing(),
        listing_bump: 253,
        market_bump: 252,
    };
    create_listing_v2(&mut ctx, qty, price).unwrap();
    ctx.listing
}

fn fulfill_ctx(listing: Listing) -> FulfillListing {
    FulfillListing {
        invoice_key: addr(INVOICE_KEY),
        invoice: invoice(),
        buyer: addr(BUYER),
        listing_key: addr(LISTING_KEY),
        listing,
        market_authority: addr(MARKET),
        buyer_usdc_ata: holding(40, addr(USDC), addr(BUYER)),
        seller_usdc_ata: holding(10, addr(USDC), addr(SELLER)),
        escrow_shares_ata: holding(90, addr(SHARES), addr(MARKET)),
        buyer_shares_ata: holding(41, addr(SHARES), addr(BUYER)),
    }
}

fn fulfill_v2_ctx(listing: Listing, seller_allowance: u64, buyer_allowance: u64) -> FulfillListingV2 {
    let mut seller_shares = holding(11, addr(SHARES), addr(SELLER));
    seller_shares.delegate = Some(addr(MARKET));
    seller_shares.delegated_amount = seller_allowance;
    let mut buyer_usdc = holding(40, addr(USDC), addr(BUYER));
    buyer_usdc.delegate = Some(addr(MARKET));
    buyer_usdc.delegated_amount = buyer_allowance;
    FulfillListingV2 {
        invoice_key: addr(INVOICE_KEY),
        invoice: invoice(),
        buyer: addr(BUYER),
        listing_key: addr(LISTING_KEY),
        listing,
        market_authority: addr(MARKET),
        buyer_usdc_ata: buyer_usdc,
        seller_usdc_ata: holding(10, addr(USDC), addr(SELLER)),
        seller_shares_ata: seller_shares,
        buyer_shares_ata: holding(41, addr(SHARES), addr(BUYER)),
        shares_mint: Mint { key: addr(SHARES), decimals: 6 },
        usdc_mint: Mint { key: addr(USDC), decimals: 6 },
    }
}

fn market() -> Authority {
    Authority::Market { key: addr(MARKET), listing: addr(LISTING_KEY), bump: 252 }
}

#[test]
fn trade_total_rounds_down_after_multiplying() {
    assert_eq!(trade_total(100_000, 2_000_000), Some(200_000));
    assert_eq!(trade_total(1, 999_999), Some(0));
    assert_eq!(trade_total(3, 500_000), Some(1));
    assert_eq!(trade_total(1_500_000, 1_500_000), Some(2_250_000));
    assert_eq!(trade_total(u64::MAX, 1), Some(u64::MAX / 1_000_000));
    assert_eq!(trade_total(u64::MAX, 2), None);
    assert_eq!(trade_total(1u64 << 32, 1u64 << 32), None);
}

#[test]
fn custodial_listing_escrows_units() {
    let mut ctx = CreateListing {
        invoice_key: addr(INVOICE_KEY),
        invoice: invoice(),
        seller: addr(SELLER),
        shares_mint: addr(SHARES),
        usdc_mint: addr(USDC),
        listing: blank_listing(),
        listing_bump: 253,
        market_bump: 252,
        market_authority: addr(MARKET),
        seller_shares_ata: holding(11, addr(SHARES), addr(SELLER)),
        escrow_shares_ata: holding(90, addr(SHARES), addr(MARKET)),
    };
    let ops = create_listing(&mut ctx, 500_000, 2_000_000).unwrap();
    assert_eq!(
        ops,
        vec![TokenOp::Transfer {
            from: addr(11),
            to: addr(90),
            authority: Authority::Signer { key: addr(SELLER) },
            amount: 500_000,
        }]
    );
    assert_eq!(ctx.listing.remaining_qty, 500_000);
    assert_eq!(ctx.listing.price, 2_000_000);
    assert_eq!(ctx.listing.invoice, addr(INVOICE_KEY));
    assert_eq!(ctx.listing.market_bump, 252);
    assert_eq!(ctx.listing.bump, 253);
}

#[test]
fn listing_terms_are_validated() {
    let mut ctx = CreateListing {
        invoice_key: addr(INVOICE_KEY),
        invoice: invoice(),
        seller: addr(SELLER),
        shares_mint: addr(SHARES),
        usdc_mint: addr(USDC),
        listing: blank_listing(),
        listing_bump: 253,
        market_bump: 252,
        market_authority: addr(MARKET),
        seller_shares_ata: holding(11, addr(SHARES), addr(SELLER)),
        escrow_shares_ata: holding(90, addr(SHARES), addr(MARKET)),
    };
    assert_eq!(create_listing(&mut ctx, 0, 1), Err(InvoiceError::InvalidParameter));
    assert_eq!(create_listing(&mut ctx, 1, 0), Err(InvoiceError::InvalidParameter));
    ctx.usdc_mint = addr(99);
    assert_eq!(create_listing(&mut ctx, 1, 1), Err(InvoiceError::CurrencyMismatch));
    let mut v2 = CreateListingV2 {
        invoice_key: addr(INVOICE_KEY),
        invoice: invoice(),
        seller: addr(SELLER),
        shares_mint: addr(98),
        usdc_mint: addr(USDC),
        listing: blank_listing(),
        listing_bump: 253,
        market_bump: 252,
    };
    assert_eq!(create_listing_v2(&mut v2, 1, 1), Err(InvoiceError::ClaimCurrencyMissing));
    assert_eq!(v2.listing.remaining_qty, 0);
}

#[test]
fn custodial_fulfill_computes_total() {
    let mut ctx = fulfill_ctx(listed(500_000, 2_000_000));
    let (ops, ev) = fulfill_listing(&mut ctx, 100_000).unwrap();
    assert_eq!(ev.total, 200_000);
    assert_eq!(ctx.listing.remaining_qty, 400_000);
    assert_eq!(
        ev,
        ListingFulfilledV1 {
            invoice: addr(INVOICE_KEY),
            seller: addr(SELLER),
            buyer: addr(BUYER),
            qty: 100_000,
            total: 200_000,
        }
    );
    assert_eq!(
        ops,
        vec![
            TokenOp::Transfer {
                from: addr(40),
                to: addr(10),
                authority: Authority::Signer { key: addr(BUYER) },
                amount: 200_000,
            },
            TokenOp::Transfer { from: addr(90), to: addr(41), authority: market(), amount: 100_000 },
        ]
    );
}

#[test]
fn fulfill_more_than_remaining_fails() {
    let mut ctx = fulfill_ctx(listed(500_000, 2_000_000));
    assert_eq!(fulfill_listing(&mut ctx, 500_001), Err(InvoiceError::InsufficientEscrow));
    assert_eq!(fulfill_listing(&mut ctx, 0), Err(InvoiceError::InsufficientEscrow));
    assert_eq!(ctx.listing.remaining_qty, 500_000);
    assert!(fulfill_listing(&mut ctx, 500_000).is_ok());
    assert_eq!(ctx.listing.remaining_qty, 0);
    assert_eq!(fulfill_listing(&mut ctx, 1), Err(InvoiceError::InsufficientEscrow));

    let mut ctx = fulfill_v2_ctx(listed(1_000, 1_000_000), u64::MAX, u64::MAX);
    assert_eq!(fulfill_listing_v2(&mut ctx, 1_001), Err(InvoiceError::InsufficientEscrow));
    assert_eq!(ctx.listing.remaining_qty, 1_000);
    let (_, ev) = fulfill_listing_v2(&mut ctx, 999).unwrap();
    assert_eq!(ev.total, 999);
    assert_eq!(ctx.listing.remaining_qty, 1);
}

#[test]
fn fulfill_with_overflowing_total_fails() {
    let mut ctx = fulfill_ctx(listed(u64::MAX, u64::MAX));
    assert_eq!(fulfill_listing(&mut ctx, 2), Err(InvoiceError::MathOverflow));
    assert_eq!(ctx.listing.remaining_qty, u64::MAX);
}

#[test]
fn fulfill_on_other_invoice_is_listing_mismatch() {
    let mut ctx = fulfill_ctx(listed(10, 1_000_000));
    ctx.invoice_key = addr(77);
    assert_eq!(fulfill_listing(&mut ctx, 1), Err(InvoiceError::ListingMismatch));
}

#[test]
fn fulfill_paying_into_wrong_balance_is_refused() {
    let mut ctx = fulfill_ctx(listed(10, 1_000_000));
    ctx.seller_usdc_ata.owner = addr(BUYER);
    assert_eq!(fulfill_listing(&mut ctx, 1), Err(InvoiceError::Unauthorized));
    let mut ctx = fulfill_ctx(listed(10, 1_000_000));
    ctx.escrow_shares_ata.mint = addr(USDC);
    assert_eq!(fulfill_listing(&mut ctx, 1), Err(InvoiceError::ClaimCurrencyMissing));
}

#[test]
fn cancel_returns_custody_then_fulfill_fails() {
    let mut listing = listed(500_000, 2_000_000);
    listing.remaining_qty = 300_000;
    let mut c = CancelListing {
        invoice_key: addr(INVOICE_KEY),
        seller: addr(SELLER),
        listing_key: addr(LISTING_KEY),
        listing,
        market_authority: addr(MARKET),
        escrow_shares_ata: holding(90, addr(SHARES), addr(MARKET)),
        seller_shares_ata: holding(11, addr(SHARES), addr(SELLER)),
    };
    let (ops, ev) = cancel_listing(&mut c).unwrap();
    assert_eq!(
        ops,
        vec![TokenOp::Transfer { from: addr(90), to: addr(11), authority: market(), amount: 300_000 }]
    );
    assert_eq!(ev, ListingCanceledV1 { invoice: addr(INVOICE_KEY), seller: addr(SELLER), qty: 300_000 });
    assert_eq!(c.listing.remaining_qty, 0);
    // a second cancel moves nothing
    let (ops, ev) = cancel_listing(&mut c).unwrap();
    assert!(ops.is_empty());
    assert_eq!(ev.qty, 0);
    let mut f = fulfill_ctx(c.listing);
    assert_eq!(fulfill_listing(&mut f, 1), Err(InvoiceError::InsufficientEscrow));
}

#[test]
fn cancel_by_other_party_is_listing_mismatch() {
    let mut c = CancelListing {
        invoice_key: addr(INVOICE_KEY),
        seller: addr(BUYER),
        listing_key: addr(LISTING_KEY),
        listing: listed(5, 5),
        market_authority: addr(MARKET),
        escrow_shares_ata: holding(90, addr(SHARES), addr(MARKET)),
        seller_shares_ata: holding(11, addr(SHARES), addr(BUYER)),
    };
    assert_eq!(cancel_listing(&mut c), Err(InvoiceError::ListingMismatch));
    assert_eq!(c.listing.remaining_qty, 5);
}

#[test]
fn allowance_fulfill_swaps_through_market_authority() {
    let mut ctx = fulfill_v2_ctx(listed(500_000, 2_000_000), 100_000, 200_000);
    let (ops, ev) = fulfill_listing_v2(&mut ctx, 100_000).unwrap();
    assert_eq!(
        ev,
        ListingFulfilledV2 {
            invoice: addr(INVOICE_KEY),
            seller: addr(SELLER),
            buyer: addr(BUYER),
            qty: 100_000,
            total: 200_000,
        }
    );
    assert_eq!(
        ops,
        vec![
            TokenOp::TransferChecked {
                from: addr(40),
                mint: addr(USDC),
                to: addr(10),
                authority: market(),
                amount: 200_000,
                decimals: 6,
            },
            TokenOp::TransferChecked {
                from: addr(11),
                mint: addr(SHARES),
                to: addr(41),
                authority: market(),
                amount: 100_000,
                decimals: 6,
            },
        ]
    );
    assert_eq!(ctx.listing.remaining_qty, 400_000);
}

#[test]
fn fulfill_v2_insufficient_seller_allowance() {
    let mut ctx = fulfill_v2_ctx(listed(500_000, 2_000_000), 50_000, u64::MAX);
    assert_eq!(fulfill_listing_v2(&mut ctx, 100_000), Err(InvoiceError::InsufficientAllowance));
    assert_eq!(ctx.listing.remaining_qty, 500_000);
}

#[test]
fn fulfill_v2_insufficient_buyer_allowance() {
    let mut ctx = fulfill_v2_ctx(listed(500_000, 2_000_000), 100_000, 199_999);
    assert_eq!(fulfill_listing_v2(&mut ctx, 100_000), Err(InvoiceError::InsufficientAllowance));
    assert_eq!(ctx.listing.remaining_qty, 500_000);
}

#[test]
fn fulfill_v2_without_delegation_is_delegate_missing() {
    let mut ctx = fulfill_v2_ctx(listed(500_000, 2_000_000), 100_000, 200_000);
    ctx.seller_shares_ata.delegate = None;
    assert_eq!(fulfill_listing_v2(&mut ctx, 100_000), Err(InvoiceError::DelegateMissing));
    let mut ctx = fulfill_v2_ctx(listed(500_000, 2_000_000), 100_000, 200_000);
    ctx.buyer_usdc_ata.delegate = Some(addr(BUYER));
    assert_eq!(fulfill_listing_v2(&mut ctx, 100_000), Err(InvoiceError::DelegateMissing));
}

#[test]
fn cancel_v2_revokes_then_fulfill_fails() {
    let mut seller_shares = holding(11, addr(SHARES), addr(SELLER));
    seller_shares.delegate = Some(addr(MARKET));
    seller_shares.delegated_amount = 500_000;
    let mut c = CancelListingV2 {
        invoice_key: addr(INVOICE_KEY),
        seller: addr(SELLER),
        listing_key: addr(LISTING_KEY),
        listing: listed(500_000, 2_000_000),
        market_authority: addr(MARKET),
        seller_shares_ata: seller_shares,
    };
    let (ops, ev) = cancel_listing_v2(&mut c).unwrap();
    assert_eq!(ops, vec![TokenOp::Revoke { source: addr(11), owner: addr(SELLER) }]);
    assert_eq!(ev, ListingCanceledV2 { invoice: addr(INVOICE_KEY), seller: addr(SELLER), qty: 500_000 });
    assert_eq!(c.listing.remaining_qty, 0);
    let mut f = fulfill_v2_ctx(c.listing, u64::MAX, u64::MAX);
    assert_eq!(fulfill_listing_v2(&mut f, 1), Err(InvoiceError::InsufficientEscrow));
    // without a delegation there is nothing to revoke
    c.seller_shares_ata.delegate = None;
    let (ops, _) = cancel_listing_v2(&mut c).unwrap();
    assert!(ops.is_empty());
}

#[test]
fn cancel_v2_on_other_invoice_is_listing_mismatch() {
    let mut c = CancelListingV2 {
        invoice_key: addr(77),
        seller: addr(SELLER),
        listing_key: addr(LISTING_KEY),
        listing: listed(5, 5),
        market_authority: addr(MARKET),
        seller_shares_ata: holding(11, addr(SHARES), addr(SELLER)),
    };
    assert_eq!(cancel_listing_v2(&mut c), Err(InvoiceError::ListingMismatch));
    assert_eq!(c.listing.remaining_qty, 5);
}
