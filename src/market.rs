use vstd::prelude::*;

use crate::accounts::{
    check_holding, holding_failure, or_else, unless, CancelListing, CreateListing, FulfillListing,
};
use crate::address::Address;
use crate::error::InvoiceError;
use crate::ops::{Authority, ListingCanceledV1, ListingFulfilledV1, TokenOp};
use crate::pricing::{spec_trade_total, trade_total, UNIT};
use crate::state::{Invoice, Listing};

verus! {

/// Why `listing` cannot be traded against `invoice` (stored at
/// `invoice_key`), if it cannot: it must be the invoice's, in the invoice's
/// two currencies.
pub open spec fn listing_failure(invoice_key: Address, invoice: Invoice, listing: Listing) -> Option<InvoiceError> {
    or_else(
        unless(listing.invoice == invoice_key, InvoiceError::ListingMismatch),
        or_else(
            unless(listing.shares_mint == invoice.shares_mint, InvoiceError::ClaimCurrencyMissing),
            unless(listing.usdc_mint == invoice.usdc_mint, InvoiceError::CurrencyMismatch),
        ),
    )
}

pub(crate) fn check_listing(invoice_key: &Address, invoice: &Invoice, listing: &Listing) -> (r: Result<
    (),
    InvoiceError,
>)
    ensures
        match listing_failure(*invoice_key, *invoice, *listing) {
            Some(e) => r == Err::<(), InvoiceError>(e),
            None => r is Ok,
        },
{
    if listing.invoice != *invoice_key {
        return Err(InvoiceError::ListingMismatch);
    }
    if listing.shares_mint != invoice.shares_mint {
        return Err(InvoiceError::ClaimCurrencyMissing);
    }
    if listing.usdc_mint != invoice.usdc_mint {
        return Err(InvoiceError::CurrencyMismatch);
    }
    Ok(())
}

/// Whether `qty` can be taken from `listing`: some, and no more than is left.
pub open spec fn quantity_available(listing: Listing, qty: u64) -> bool {
    0 < qty <= listing.remaining_qty
}

/// `listing` after `qty` units of it were sold.
pub open spec fn traded_listing(listing: Listing, qty: u64) -> Listing {
    Listing { remaining_qty: (listing.remaining_qty - qty) as u64, ..listing }
}

/// `listing` once withdrawn: still readable, no longer tradeable.
pub open spec fn closed_listing(listing: Listing) -> Listing {
    Listing { remaining_qty: 0, ..listing }
}

/// A fresh listing of `qty` units at `price`.
pub open spec fn new_listing(
    invoice: Address,
    seller: Address,
    shares_mint: Address,
    usdc_mint: Address,
    price: u64,
    qty: u64,
    bump: u8,
    market_bump: u8,
) -> Listing {
    Listing { invoice, seller, shares_mint, usdc_mint, price, remaining_qty: qty, bump, market_bump }
}

/// Why a listing of `qty` units at `price` is refused for `invoice`, if it
/// is: the currencies offered must be the invoice's, and nothing is zero.
pub open spec fn listing_terms_failure(
    invoice: Invoice,
    shares_mint: Address,
    usdc_mint: Address,
    qty: u64,
    price: u64,
) -> Option<InvoiceError> {
    or_else(
        unless(shares_mint == invoice.shares_mint, InvoiceError::ClaimCurrencyMissing),
        or_else(
            unless(usdc_mint == invoice.usdc_mint, InvoiceError::CurrencyMismatch),
            unless(qty > 0 && price > 0, InvoiceError::InvalidParameter),
        ),
    )
}

pub(crate) fn check_listing_terms(
    invoice: &Invoice,
    shares_mint: &Address,
    usdc_mint: &Address,
    qty: u64,
    price: u64,
) -> (r: Result<(), InvoiceError>)
    ensures
        match listing_terms_failure(*invoice, *shares_mint, *usdc_mint, qty, price) {
            Some(e) => r == Err::<(), InvoiceError>(e),
            None => r is Ok,
        },
{
    if *shares_mint != invoice.shares_mint {
        return Err(InvoiceError::ClaimCurrencyMissing);
    }
    if *usdc_mint != invoice.usdc_mint {
        return Err(InvoiceError::CurrencyMismatch);
    }
    if !(qty > 0 && price > 0) {
        return Err(InvoiceError::InvalidParameter);
    }
    Ok(())
}

// Custodial market: listed claim units sit in a balance owned by the
// listing's market authority until they are bought or handed back.

/// Why a custodial listing is refused, if it is.
pub open spec fn create_listing_failure(c: CreateListing, qty: u64, price: u64) -> Option<InvoiceError> {
    or_else(
        holding_failure(c.seller_shares_ata, c.seller, c.shares_mint, InvoiceError::ClaimCurrencyMissing),
        or_else(
            holding_failure(
                c.escrow_shares_ata,
                c.market_authority,
                c.shares_mint,
                InvoiceError::ClaimCurrencyMissing,
            ),
            listing_terms_failure(c.invoice, c.shares_mint, c.usdc_mint, qty, price),
        ),
    )
}

/// The transfer that puts listed units into the listing's custody.
pub open spec fn create_listing_ops(c: CreateListing, qty: u64) -> Seq<TokenOp> {
    seq![
        TokenOp::Transfer {
            from: c.seller_shares_ata.key,
            to: c.escrow_shares_ata.key,
            authority: Authority::Signer { key: c.seller },
            amount: qty,
        },
    ]
}

/// Lists `qty` claim units at `price`, moving them into the listing's
/// custody.
pub fn create_listing(ctx: &mut CreateListing, qty: u64, price: u64) -> (r: Result<
    Vec<TokenOp>,
    InvoiceError,
>)
    ensures
        match r {
            Ok(ops) => {
                &&& create_listing_failure(*old(ctx), qty, price) is None
                &&& ops@ == create_listing_ops(*old(ctx), qty)
                &&& *final(ctx) == (CreateListing {
                    listing: new_listing(
                        old(ctx).invoice_key,
                        old(ctx).seller,
                        old(ctx).shares_mint,
                        old(ctx).usdc_mint,
                        price,
                        qty,
                        old(ctx).listing_bump,
                        old(ctx).market_bump,
                    ),
                    ..*old(ctx)
                })
            },
            Err(e) => {
                &&& create_listing_failure(*old(ctx), qty, price) == Some(e)
                &&& *final(ctx) == *old(ctx)
            },
        },
{
    check_holding(
        &ctx.seller_shares_ata,
        &ctx.seller,
        &ctx.shares_mint,
        InvoiceError::ClaimCurrencyMissing,
    )?;
    check_holding(
        &ctx.escrow_shares_ata,
        &ctx.market_authority,
        &ctx.shares_mint,
        InvoiceError::ClaimCurrencyMissing,
    )?;
    check_listing_terms(&ctx.invoice, &ctx.shares_mint, &ctx.usdc_mint, qty, price)?;
    let ops = vec![
        TokenOp::Transfer {
            from: ctx.seller_shares_ata.key,
            to: ctx.escrow_shares_ata.key,
            authority: Authority::Signer { key: ctx.seller },
            amount: qty,
        },
    ];
    ctx.listing = Listing {
        invoice: ctx.invoice_key,
        seller: ctx.seller,
        shares_mint: ctx.shares_mint,
        usdc_mint: ctx.usdc_mint,
        price,
        remaining_qty: qty,
        bump: ctx.listing_bump,
        market_bump: ctx.market_bump,
    };
    Ok(ops)
}

/// Why the accounts given to a custodial trade are refused, if they are:
/// each balance must be the right party's, in the right currency, and the
/// listing must belong to the invoice.
pub open spec fn fulfill_account_failure(c: FulfillListing) -> Option<InvoiceError> {
    let l = c.listing;
    or_else(
        holding_failure(c.buyer_usdc_ata, c.buyer, l.usdc_mint, InvoiceError::CurrencyMismatch),
        or_else(
            holding_failure(c.seller_usdc_ata, l.seller, l.usdc_mint, InvoiceError::CurrencyMismatch),
            or_else(
                holding_failure(
                    c.escrow_shares_ata,
                    c.market_authority,
                    l.shares_mint,
                    InvoiceError::ClaimCurrencyMissing,
                ),
                or_else(
                    holding_failure(
                        c.buyer_shares_ata,
                        c.buyer,
                        l.shares_mint,
                        InvoiceError::ClaimCurrencyMissing,
                    ),
                    listing_failure(c.invoice_key, c.invoice, l),
                ),
            ),
        ),
    )
}

/// Why a custodial trade of `qty` units is refused, if it is, in the order
/// the checks are made.
pub open spec fn fulfill_failure(c: FulfillListing, qty: u64) -> Option<InvoiceError> {
    or_else(
        fulfill_account_failure(c),
        or_else(
            unless(quantity_available(c.listing, qty), InvoiceError::InsufficientEscrow),
            unless(spec_trade_total(qty, c.listing.price) is Some, InvoiceError::MathOverflow),
        ),
    )
}

/// The market authority of the listing in a custodial trade.
pub open spec fn market_authority_of(c: FulfillListing) -> Authority {
    Authority::Market { key: c.market_authority, listing: c.listing_key, bump: c.listing.market_bump }
}

/// The two transfers of a custodial trade: the buyer pays the seller, then
/// the custody hands the units to the buyer.
pub open spec fn fulfill_ops(c: FulfillListing, qty: u64, total: u64) -> Seq<TokenOp> {
    seq![
        TokenOp::Transfer {
            from: c.buyer_usdc_ata.key,
            to: c.seller_usdc_ata.key,
            authority: Authority::Signer { key: c.buyer },
            amount: total,
        },
        TokenOp::Transfer {
            from: c.escrow_shares_ata.key,
            to: c.buyer_shares_ata.key,
            authority: market_authority_of(c),
            amount: qty,
        },
    ]
}

/// Sells `qty` custodied units of a listing to the buyer.
///
/// On success the listing has `qty` fewer units, and the returned
/// operations pay the seller the trade's total and hand the units over.
/// On refusal nothing changes.
pub fn fulfill_listing(ctx: &mut FulfillListing, qty: u64) -> (r: Result<
    (Vec<TokenOp>, ListingFulfilledV1),
    InvoiceError,
>)
    ensures
        match r {
            Ok((ops, ev)) => {
                &&& fulfill_failure(*old(ctx), qty) is None
                &&& spec_trade_total(qty, old(ctx).listing.price) == Some(ev.total)
                &&& ops@ == fulfill_ops(*old(ctx), qty, ev.total)
                &&& ev == (ListingFulfilledV1 {
                    invoice: old(ctx).invoice_key,
                    seller: old(ctx).listing.seller,
                    buyer: old(ctx).buyer,
                    qty,
                    total: ev.total,
                })
                &&& *final(ctx) == (FulfillListing {
                    listing: traded_listing(old(ctx).listing, qty),
                    ..*old(ctx)
                })
            },
            Err(e) => {
                &&& fulfill_failure(*old(ctx), qty) == Some(e)
                &&& *final(ctx) == *old(ctx)
            },
        },
        fulfill_account_failure(*old(ctx)) is None && qty > old(ctx).listing.remaining_qty ==> r
            == Err::<(Vec<TokenOp>, ListingFulfilledV1), InvoiceError>(
            InvoiceError::InsufficientEscrow,
        ) && *final(ctx) == *old(ctx),
        r is Ok ==> final(ctx).listing.remaining_qty == old(ctx).listing.remaining_qty - qty && r->Ok_0.1.total
            == qty * old(ctx).listing.price / (UNIT as int),
{
    let seller = ctx.listing.seller;
    let shares = ctx.listing.shares_mint;
    let usdc = ctx.listing.usdc_mint;
    check_holding(&ctx.buyer_usdc_ata, &ctx.buyer, &usdc, InvoiceError::CurrencyMismatch)?;
    check_holding(&ctx.seller_usdc_ata, &seller, &usdc, InvoiceError::CurrencyMismatch)?;
    check_holding(
        &ctx.escrow_shares_ata,
        &ctx.market_authority,
        &shares,
        InvoiceError::ClaimCurrencyMissing,
    )?;
    check_holding(&ctx.buyer_shares_ata, &ctx.buyer, &shares, InvoiceError::ClaimCurrencyMissing)?;
    check_listing(&ctx.invoice_key, &ctx.invoice, &ctx.listing)?;
    if !(qty > 0 && qty <= ctx.listing.remaining_qty) {
        return Err(InvoiceError::InsufficientEscrow);
    }
    let total = match trade_total(qty, ctx.listing.price) {
        Some(t) => t,
        None => return Err(InvoiceError::MathOverflow),
    };
    let ops = vec![
        TokenOp::Transfer {
            from: ctx.buyer_usdc_ata.key,
            to: ctx.seller_usdc_ata.key,
            authority: Authority::Signer { key: ctx.buyer },
            amount: total,
        },
        TokenOp::Transfer {
            from: ctx.escrow_shares_ata.key,
            to: ctx.buyer_shares_ata.key,
            authority: Authority::Market {
                key: ctx.market_authority,
                listing: ctx.listing_key,
                bump: ctx.listing.market_bump,
            },
            amount: qty,
        },
    ];
    ctx.listing.remaining_qty = ctx.listing.remaining_qty - qty;
    let ev = ListingFulfilledV1 { invoice: ctx.invoice_key, seller, buyer: ctx.buyer, qty, total };
    Ok((ops, ev))
}

/// Why withdrawing a custodial listing is refused, if it is: only its
/// seller may, and the custody must hand back to the seller's own balance.
pub open spec fn cancel_failure(c: CancelListing) -> Option<InvoiceError> {
    let l = c.listing;
    or_else(
        unless(l.seller == c.seller && l.invoice == c.invoice_key, InvoiceError::ListingMismatch),
        or_else(
            holding_failure(
                c.escrow_shares_ata,
                c.market_authority,
                l.shares_mint,
                InvoiceError::ClaimCurrencyMissing,
            ),
            holding_failure(c.seller_shares_ata, c.seller, l.shares_mint, InvoiceError::ClaimCurrencyMissing),
        ),
    )
}

/// What withdrawing a custodial listing moves: whatever is still in
/// custody goes back to the seller, and nothing when nothing is left.
pub open spec fn cancel_ops(c: CancelListing) -> Seq<TokenOp> {
    if c.listing.remaining_qty > 0 {
        seq![
            TokenOp::Transfer {
                from: c.escrow_shares_ata.key,
                to: c.seller_shares_ata.key,
                authority: Authority::Market {
                    key: c.market_authority,
                    listing: c.listing_key,
                    bump: c.listing.market_bump,
                },
                amount: c.listing.remaining_qty,
            },
        ]
    } else {
        seq![]
    }
}

/// Withdraws a custodial listing: the units still in custody go back to
/// the seller and the listing can no longer be traded.
pub fn cancel_listing(ctx: &mut CancelListing) -> (r: Result<
    (Vec<TokenOp>, ListingCanceledV1),
    InvoiceError,
>)
    ensures
        match r {
            Ok((ops, ev)) => {
                &&& cancel_failure(*old(ctx)) is None
                &&& ops@ == cancel_ops(*old(ctx))
                &&& ev == (ListingCanceledV1 {
                    invoice: old(ctx).invoice_key,
                    seller: old(ctx).listing.seller,
                    qty: old(ctx).listing.remaining_qty,
                })
                &&& *final(ctx) == (CancelListing { listing: closed_listing(old(ctx).listing), ..*old(ctx) })
            },
            Err(e) => {
                &&& cancel_failure(*old(ctx)) == Some(e)
                &&& *final(ctx) == *old(ctx)
            },
        },
{
    if !(ctx.listing.seller == ctx.seller && ctx.listing.invoice == ctx.invoice_key) {
        return Err(InvoiceError::ListingMismatch);
    }
    let shares = ctx.listing.shares_mint;
    check_holding(
        &ctx.escrow_shares_ata,
        &ctx.market_authority,
        &shares,
        InvoiceError::ClaimCurrencyMissing,
    )?;
    check_holding(&ctx.seller_shares_ata, &ctx.seller, &shares, InvoiceError::ClaimCurrencyMissing)?;
    let remaining = ctx.listing.remaining_qty;
    let mut ops: Vec<TokenOp> = Vec::new();
    if remaining > 0 {
        ops.push(
            TokenOp::Transfer {
                from: ctx.escrow_shares_ata.key,
                to: ctx.seller_shares_ata.key,
                authority: Authority::Market {
                    key: ctx.market_authority,
                    listing: ctx.listing_key,
                    bump: ctx.listing.market_bump,
                },
                amount: remaining,
            },
        );
    }
    ctx.listing.remaining_qty = 0;
    let ev = ListingCanceledV1 { invoice: ctx.invoice_key, seller: ctx.listing.seller, qty: remaining };
    Ok((ops, ev))
}

} // verus!
