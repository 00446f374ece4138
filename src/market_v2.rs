use vstd::prelude::*;

use crate::accounts::{
    check_delegates_to, check_holding, delegates_to, holding_failure, or_else, unless,
    CancelListingV2, CreateListingV2, FulfillListingV2,
};
use crate::error::InvoiceError;
use crate::market::{
    check_listing, check_listing_terms, closed_listing, listing_failure, listing_terms_failure,
    new_listing, quantity_available, traded_listing,
};
use crate::ops::{Authority, ListingCanceledV2, ListingFulfilledV2, TokenOp};
use crate::pricing::{spec_trade_total, trade_total, UNIT};
use crate::state::Listing;

verus! {

// Allowance-based market: claim units and currency stay in their owners'
// balances, which delegate to the listing's market authority; a trade moves
// both at once through that authority.

/// Why the accounts given to an allowance-based trade are refused, if they
/// are: each balance must be the right party's, in the right currency, and
/// the listing must belong to the invoice.
pub open spec fn fulfill_v2_account_failure(c: FulfillListingV2) -> Option<InvoiceError> {
    let l = c.listing;
    or_else(
        holding_failure(c.buyer_usdc_ata, c.buyer, l.usdc_mint, InvoiceError::CurrencyMismatch),
        or_else(
            holding_failure(c.seller_usdc_ata, l.seller, l.usdc_mint, InvoiceError::CurrencyMismatch),
            or_else(
                holding_failure(
                    c.seller_shares_ata,
                    l.seller,
                    l.shares_mint,
                    InvoiceError::ClaimCurrencyMissing,
                ),
                or_else(
                    holding_failure(
                        c.buyer_shares_ata,
                        c.buyer,
                        l.shares_mint,
                        InvoiceError::ClaimCurrencyMissing,
                    ),
                    or_else(
                        unless(c.shares_mint.key == l.shares_mint, InvoiceError::ClaimCurrencyMissing),
                        or_else(
                            unless(c.usdc_mint.key == l.usdc_mint, InvoiceError::CurrencyMismatch),
                            listing_failure(c.invoice_key, c.invoice, l),
                        ),
                    ),
                ),
            ),
        ),
    )
}

/// Why the allowances cannot carry a trade of `qty` units for `total`, if
/// they cannot: both balances must delegate enough to the market authority.
pub open spec fn allowance_failure(c: FulfillListingV2, qty: u64, total: u64) -> Option<InvoiceError> {
    or_else(
        unless(delegates_to(c.seller_shares_ata, c.market_authority), InvoiceError::DelegateMissing),
        or_else(
            unless(delegates_to(c.buyer_usdc_ata, c.market_authority), InvoiceError::DelegateMissing),
            or_else(
                unless(c.seller_shares_ata.delegated_amount >= qty, InvoiceError::InsufficientAllowance),
                unless(c.buyer_usdc_ata.delegated_amount >= total, InvoiceError::InsufficientAllowance),
            ),
        ),
    )
}

/// Why an allowance-based trade of `qty` units is refused, if it is, in the
/// order the checks are made.
pub open spec fn fulfill_v2_failure(c: FulfillListingV2, qty: u64) -> Option<InvoiceError> {
    or_else(
        fulfill_v2_account_failure(c),
        or_else(
            unless(quantity_available(c.listing, qty), InvoiceError::InsufficientEscrow),
            match spec_trade_total(qty, c.listing.price) {
                None => Some(InvoiceError::MathOverflow),
                Some(total) => allowance_failure(c, qty, total),
            },
        ),
    )
}

/// The market authority of the listing in `c`, acting as delegate.
pub open spec fn market_v2_authority(c: FulfillListingV2) -> Authority {
    Authority::Market { key: c.market_authority, listing: c.listing_key, bump: c.listing.market_bump }
}

/// The two transfers of a trade: currency from buyer to seller, then claim
/// units from seller to buyer, both under the market authority.
pub open spec fn fulfill_v2_ops(c: FulfillListingV2, qty: u64, total: u64) -> Seq<TokenOp> {
    seq![
        TokenOp::TransferChecked {
            from: c.buyer_usdc_ata.key,
            mint: c.usdc_mint.key,
            to: c.seller_usdc_ata.key,
            authority: market_v2_authority(c),
            amount: total,
            decimals: c.usdc_mint.decimals,
        },
        TokenOp::TransferChecked {
            from: c.seller_shares_ata.key,
            mint: c.shares_mint.key,
            to: c.buyer_shares_ata.key,
            authority: market_v2_authority(c),
            amount: qty,
            decimals: c.shares_mint.decimals,
        },
    ]
}

/// Sells `qty` units of an allowance-based listing to the buyer.
///
/// On success the listing has `qty` fewer units, the returned operations
/// swap `qty` claim units against their total, and the record names the
/// trade. On refusal nothing changes.
pub fn fulfill_listing_v2(ctx: &mut FulfillListingV2, qty: u64) -> (r: Result<
    (Vec<TokenOp>, ListingFulfilledV2),
    InvoiceError,
>)
    ensures
        match r {
            Ok((ops, ev)) => {
                &&& fulfill_v2_failure(*old(ctx), qty) is None
                &&& spec_trade_total(qty, old(ctx).listing.price) == Some(ev.total)
                &&& ops@ == fulfill_v2_ops(*old(ctx), qty, ev.total)
                &&& ev == (ListingFulfilledV2 {
                    invoice: old(ctx).invoice_key,
                    seller: old(ctx).listing.seller,
                    buyer: old(ctx).buyer,
                    qty,
                    total: ev.total,
                })
                &&& *final(ctx) == (FulfillListingV2 {
                    listing: traded_listing(old(ctx).listing, qty),
                    ..*old(ctx)
                })
            },
            Err(e) => {
                &&& fulfill_v2_failure(*old(ctx), qty) == Some(e)
                &&& *final(ctx) == *old(ctx)
            },
        },
        fulfill_v2_account_failure(*old(ctx)) is None && qty > old(ctx).listing.remaining_qty ==> r
            == Err::<(Vec<TokenOp>, ListingFulfilledV2), InvoiceError>(
            InvoiceError::InsufficientEscrow,
        ) && *final(ctx) == *old(ctx),
        r is Ok ==> final(ctx).listing.remaining_qty == old(ctx).listing.remaining_qty - qty && r->Ok_0.1.total
            == qty * old(ctx).listing.price / (UNIT as int),
{
    let seller = ctx.listing.seller;
    let shares = ctx.listing.shares_mint;
    let usdc = ctx.listing.usdc_mint;
    check_holding(&ctx.buyer_usdc_ata, &ctx.buyer, &usdc, InvoiceError::CurrencyMismatch)?;
    check_holding(&ctx.seller_usdc_ata, &seller, &usdc, InvoiceError::CurrencyMismatch)?;
    check_holding(&ctx.seller_shares_ata, &seller, &shares, InvoiceError::ClaimCurrencyMissing)?;
    check_holding(&ctx.buyer_shares_ata, &ctx.buyer, &shares, InvoiceError::ClaimCurrencyMissing)?;
    if ctx.shares_mint.key != shares {
        return Err(InvoiceError::ClaimCurrencyMissing);
    }
    if ctx.usdc_mint.key != usdc {
        return Err(InvoiceError::CurrencyMismatch);
    }
    check_listing(&ctx.invoice_key, &ctx.invoice, &ctx.listing)?;
    if !(qty > 0 && qty <= ctx.listing.remaining_qty) {
        return Err(InvoiceError::InsufficientEscrow);
    }
    let total = match trade_total(qty, ctx.listing.price) {
        Some(t) => t,
        None => return Err(InvoiceError::MathOverflow),
    };
    if !check_delegates_to(&ctx.seller_shares_ata, &ctx.market_authority) {
        return Err(InvoiceError::DelegateMissing);
    }
    if !check_delegates_to(&ctx.buyer_usdc_ata, &ctx.market_authority) {
        return Err(InvoiceError::DelegateMissing);
    }
    if ctx.seller_shares_ata.delegated_amount < qty {
        return Err(InvoiceError::InsufficientAllowance);
    }
    if ctx.buyer_usdc_ata.delegated_amount < total {
        return Err(InvoiceError::InsufficientAllowance);
    }
    let authority = Authority::Market {
        key: ctx.market_authority,
        listing: ctx.listing_key,
        bump: ctx.listing.market_bump,
    };
    let ops = vec![
        TokenOp::TransferChecked {
            from: ctx.buyer_usdc_ata.key,
            mint: ctx.usdc_mint.key,
            to: ctx.seller_usdc_ata.key,
            authority,
            amount: total,
            decimals: ctx.usdc_mint.decimals,
        },
        TokenOp::TransferChecked {
            from: ctx.seller_shares_ata.key,
            mint: ctx.shares_mint.key,
            to: ctx.buyer_shares_ata.key,
            authority,
            amount: qty,
            decimals: ctx.shares_mint.decimals,
        },
    ];
    ctx.listing.remaining_qty = ctx.listing.remaining_qty - qty;
    let ev = ListingFulfilledV2 { invoice: ctx.invoice_key, seller, buyer: ctx.buyer, qty, total };
    Ok((ops, ev))
}

/// Lists `qty` claim units at `price` without moving them: the seller's
/// balance is expected to delegate them to the listing's market authority.
pub fn create_listing_v2(ctx: &mut CreateListingV2, qty: u64, price: u64) -> (r: Result<
    (),
    InvoiceError,
>)
    ensures
        match r {
            Ok(()) => {
                &&& listing_terms_failure(
                    old(ctx).invoice,
                    old(ctx).shares_mint,
                    old(ctx).usdc_mint,
                    qty,
                    price,
                ) is None
                &&& *final(ctx) == (CreateListingV2 {
                    listing: new_listing(
                        old(ctx).invoice_key,
                        old(ctx).seller,
                        old(ctx).shares_mint,
                        old(ctx).usdc_mint,
                        price,
                        qty,
                        old(ctx).listing_bump,
                        old(ctx).market_bump,
                    ),
                    ..*old(ctx)
                })
            },
            Err(e) => {
                &&& listing_terms_failure(
                    old(ctx).invoice,
                    old(ctx).shares_mint,
                    old(ctx).usdc_mint,
                    qty,
                    price,
                ) == Some(e)
                &&& *final(ctx) == *old(ctx)
            },
        },
{
    check_listing_terms(&ctx.invoice, &ctx.shares_mint, &ctx.usdc_mint, qty, price)?;
    ctx.listing = Listing {
        invoice: ctx.invoice_key,
        seller: ctx.seller,
        shares_mint: ctx.shares_mint,
        usdc_mint: ctx.usdc_mint,
        price,
        remaining_qty: qty,
        bump: ctx.listing_bump,
        market_bump: ctx.market_bump,
    };
    Ok(())
}

/// Why withdrawing an allowance-based listing is refused, if it is: only
/// its seller may, with the seller's own claim balance.
pub open spec fn cancel_v2_failure(c: CancelListingV2) -> Option<InvoiceError> {
    let l = c.listing;
    or_else(
        unless(l.seller == c.seller, InvoiceError::ListingMismatch),
        or_else(
            holding_failure(c.seller_shares_ata, c.seller, l.shares_mint, InvoiceError::ClaimCurrencyMissing),
            unless(l.invoice == c.invoice_key, InvoiceError::ListingMismatch),
        ),
    )
}

/// What withdrawing an allowance-based listing does on the ledger: the
/// seller's delegation to the market authority is revoked, if there is one.
pub open spec fn cancel_v2_ops(c: CancelListingV2) -> Seq<TokenOp> {
    if delegates_to(c.seller_shares_ata, c.market_authority) {
        seq![TokenOp::Revoke { source: c.seller_shares_ata.key, owner: c.seller }]
    } else {
        seq![]
    }
}

/// Withdraws an allowance-based listing: it can no longer be traded, and
/// the market authority loses the seller's allowance.
pub fn cancel_listing_v2(ctx: &mut CancelListingV2) -> (r: Result<
    (Vec<TokenOp>, ListingCanceledV2),
    InvoiceError,
>)
    ensures
        match r {
            Ok((ops, ev)) => {
                &&& cancel_v2_failure(*old(ctx)) is None
                &&& ops@ == cancel_v2_ops(*old(ctx))
                &&& ev == (ListingCanceledV2 {
                    invoice: old(ctx).invoice_key,
                    seller: old(ctx).listing.seller,
                    qty: old(ctx).listing.remaining_qty,
                })
                &&& *final(ctx) == (CancelListingV2 {
                    listing: closed_listing(old(ctx).listing),
                    ..*old(ctx)
                })
            },
            Err(e) => {
                &&& cancel_v2_failure(*old(ctx)) == Some(e)
                &&& *final(ctx) == *old(ctx)
            },
        },
{
    if ctx.listing.seller != ctx.seller {
        return Err(InvoiceError::ListingMismatch);
    }
    let shares = ctx.listing.shares_mint;
    check_holding(&ctx.seller_shares_ata, &ctx.seller, &shares, InvoiceError::ClaimCurrencyMissing)?;
    if ctx.listing.invoice != ctx.invoice_key {
        return Err(InvoiceError::ListingMismatch);
    }
    let mut ops: Vec<TokenOp> = Vec::new();
    if check_delegates_to(&ctx.seller_shares_ata, &ctx.market_authority) {
        ops.push(TokenOp::Revoke { source: ctx.seller_shares_ata.key, owner: ctx.seller });
    }
    let canceled = ctx.listing.remaining_qty;
    ctx.listing.remaining_qty = 0;
    let ev = ListingCanceledV2 { invoice: ctx.invoice_key, seller: ctx.listing.seller, qty: canceled };
    Ok((ops, ev))
}

} // verus!
