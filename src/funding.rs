use vstd::prelude::*;

use crate::accounts::{
    check_holding, holding_failure, or_else, unless, FundInvoice, FundInvoiceFractional,
};
use crate::address::Address;
use crate::error::InvoiceError;
use crate::ops::{Authority, TokenOp};
use crate::state::{Invoice, InvoiceStatus};

verus! {

/// Whether `invoice` still takes contributions.
pub open spec fn accepts_funding(invoice: Invoice) -> bool {
    invoice.status == InvoiceStatus::Open || invoice.status == InvoiceStatus::Funded
}

/// Whether a contribution of `amount` stays within the face amount.
pub open spec fn within_face(invoice: Invoice, amount: u64) -> bool {
    invoice.funded_amount + amount <= invoice.amount
}

/// `invoice` after `investor` contributed `amount`: the funded amount grows
/// by it, the invoice is Funded, and `investor` replaces the previous
/// contributor.
pub open spec fn funded_invoice(invoice: Invoice, amount: u64, investor: Address) -> Invoice {
    Invoice {
        funded_amount: (invoice.funded_amount + amount) as u64,
        status: InvoiceStatus::Funded,
        investor,
        ..invoice
    }
}

/// What one contribution of `amount` by `investor` can do to an invoice:
/// leave it as it was, or, when the amount fits under the face amount,
/// record it.
pub open spec fn funding_outcome(before: Invoice, after: Invoice, amount: u64, investor: Address) -> bool {
    after == before || (within_face(before, amount) && after == funded_invoice(before, amount, investor))
}

/// Whether `invoice` can take `amount` more, and if not, why; `Overfund`
/// covers a record whose funded amount already exceeds its face amount.
fn check_contribution(invoice: &Invoice, amount: u64) -> (r: Result<(), InvoiceError>)
    ensures
        r == (if within_face(*invoice, amount) {
            Ok::<(), InvoiceError>(())
        } else {
            Err(InvoiceError::Overfund)
        }),
{
    if invoice.funded_amount <= invoice.amount && amount <= invoice.amount - invoice.funded_amount {
        Ok(())
    } else {
        Err(InvoiceError::Overfund)
    }
}

/// Why a direct contribution of `amount` is refused, if it is, in the order
/// the checks are made.
pub open spec fn fund_failure(c: FundInvoice, amount: u64) -> Option<InvoiceError> {
    let usdc = c.invoice.usdc_mint;
    or_else(
        holding_failure(c.investor_ata, c.investor, usdc, InvoiceError::CurrencyMismatch),
        or_else(
            holding_failure(c.escrow_token, c.escrow_authority, usdc, InvoiceError::CurrencyMismatch),
            or_else(
                unless(accepts_funding(c.invoice), InvoiceError::WrongStatus),
                unless(within_face(c.invoice, amount), InvoiceError::Overfund),
            ),
        ),
    )
}

/// The transfer of a direct contribution, from the investor into custody.
pub open spec fn fund_ops(c: FundInvoice, amount: u64) -> Seq<TokenOp> {
    seq![
        TokenOp::Transfer {
            from: c.investor_ata.key,
            to: c.escrow_token.key,
            authority: Authority::Signer { key: c.investor },
            amount,
        },
    ]
}

/// Contributes `amount` of the reference currency to an invoice's escrow.
///
/// On success the returned transfer moves `amount` from the investor into
/// custody, and the invoice records it; the funded amount never passes the
/// face amount. On refusal nothing changes.
pub fn fund_invoice(ctx: &mut FundInvoice, amount: u64) -> (r: Result<Vec<TokenOp>, InvoiceError>)
    ensures
        match r {
            Ok(ops) => {
                &&& fund_failure(*old(ctx), amount) is None
                &&& ops@ == fund_ops(*old(ctx), amount)
                &&& *final(ctx) == (FundInvoice {
                    invoice: funded_invoice(old(ctx).invoice, amount, old(ctx).investor),
                    ..*old(ctx)
                })
                &&& final(ctx).invoice.funded_amount <= final(ctx).invoice.amount
            },
            Err(e) => {
                &&& fund_failure(*old(ctx), amount) == Some(e)
                &&& *final(ctx) == *old(ctx)
            },
        },
        funding_outcome(old(ctx).invoice, final(ctx).invoice, amount, old(ctx).investor),
        !within_face(old(ctx).invoice, amount) ==> r is Err && final(ctx).invoice == old(ctx).invoice,
        old(ctx).invoice.wf() ==> final(ctx).invoice.wf(),
{
    let usdc = ctx.invoice.usdc_mint;
    check_holding(&ctx.investor_ata, &ctx.investor, &usdc, InvoiceError::CurrencyMismatch)?;
    check_holding(&ctx.escrow_token, &ctx.escrow_authority, &usdc, InvoiceError::CurrencyMismatch)?;
    if !(ctx.invoice.status == InvoiceStatus::Open || ctx.invoice.status == InvoiceStatus::Funded) {
        return Err(InvoiceError::WrongStatus);
    }
    check_contribution(&ctx.invoice, amount)?;
    let ops = vec![
        TokenOp::Transfer {
            from: ctx.investor_ata.key,
            to: ctx.escrow_token.key,
            authority: Authority::Signer { key: ctx.investor },
            amount,
        },
    ];
    ctx.invoice.funded_amount = ctx.invoice.funded_amount + amount;
    ctx.invoice.status = InvoiceStatus::Funded;
    ctx.invoice.investor = ctx.investor;
    Ok(ops)
}

/// Why a fractional contribution of `amount` is refused, if it is, in the
/// order the checks are made. Beyond a direct contribution's checks, the
/// escrow must be established and the claim currency set and supplied.
pub open spec fn fund_fractional_failure(c: FundInvoiceFractional, amount: u64) -> Option<
    InvoiceError,
> {
    let usdc = c.invoice.usdc_mint;
    or_else(
        holding_failure(c.investor_ata, c.investor, usdc, InvoiceError::CurrencyMismatch),
        or_else(
            holding_failure(c.escrow_token, c.escrow_authority, usdc, InvoiceError::CurrencyMismatch),
            or_else(
                holding_failure(
                    c.investor_shares_ata,
                    c.investor,
                    c.shares_mint,
                    InvoiceError::ClaimCurrencyMissing,
                ),
                or_else(
                    unless(accepts_funding(c.invoice), InvoiceError::WrongStatus),
                    or_else(
                        unless(c.invoice.escrow_bump != 0, InvoiceError::EscrowNotInitialized),
                        or_else(
                            unless(
                                !c.invoice.shares_mint.is_zero() && c.shares_mint
                                    == c.invoice.shares_mint,
                                InvoiceError::ClaimCurrencyMissing,
                            ),
                            unless(within_face(c.invoice, amount), InvoiceError::Overfund),
                        ),
                    ),
                ),
            ),
        ),
    )
}

/// The escrow authority of the invoice in `c`, proved by its nonce.
pub open spec fn escrow_authority_of(c: FundInvoiceFractional) -> Authority {
    Authority::Escrow { key: c.escrow_authority, invoice: c.invoice_key, bump: c.invoice.escrow_bump }
}

/// The operations of a fractional contribution: the currency goes into
/// custody, then the same number of claim units is minted to the investor.
pub open spec fn fund_fractional_ops(c: FundInvoiceFractional, amount: u64) -> Seq<TokenOp> {
    seq![
        TokenOp::Transfer {
            from: c.investor_ata.key,
            to: c.escrow_token.key,
            authority: Authority::Signer { key: c.investor },
            amount,
        },
        TokenOp::MintTo {
            mint: c.shares_mint,
            to: c.investor_shares_ata.key,
            authority: escrow_authority_of(c),
            amount,
        },
    ]
}

/// Contributes `amount` to an invoice's escrow against as many claim units.
///
/// On success the returned operations move `amount` into custody and mint
/// `amount` claim units to the investor, and the invoice records the
/// contribution as a direct one does. On refusal nothing changes.
pub fn fund_invoice_fractional(ctx: &mut FundInvoiceFractional, amount: u64) -> (r: Result<
    Vec<TokenOp>,
    InvoiceError,
>)
    ensures
        match r {
            Ok(ops) => {
                &&& fund_fractional_failure(*old(ctx), amount) is None
                &&& ops@ == fund_fractional_ops(*old(ctx), amount)
                &&& *final(ctx) == (FundInvoiceFractional {
                    invoice: funded_invoice(old(ctx).invoice, amount, old(ctx).investor),
                    ..*old(ctx)
                })
                &&& final(ctx).invoice.funded_amount <= final(ctx).invoice.amount
            },
            Err(e) => {
                &&& fund_fractional_failure(*old(ctx), amount) == Some(e)
                &&& *final(ctx) == *old(ctx)
            },
        },
        funding_outcome(old(ctx).invoice, final(ctx).invoice, amount, old(ctx).investor),
        !within_face(old(ctx).invoice, amount) ==> r is Err && final(ctx).invoice == old(ctx).invoice,
        old(ctx).invoice.wf() ==> final(ctx).invoice.wf(),
{
    let usdc = ctx.invoice.usdc_mint;
    check_holding(&ctx.investor_ata, &ctx.investor, &usdc, InvoiceError::CurrencyMismatch)?;
    check_holding(&ctx.escrow_token, &ctx.escrow_authority, &usdc, InvoiceError::CurrencyMismatch)?;
    check_holding(
        &ctx.investor_shares_ata,
        &ctx.investor,
        &ctx.shares_mint,
        InvoiceError::ClaimCurrencyMissing,
    )?;
    if !(ctx.invoice.status == InvoiceStatus::Open || ctx.invoice.status == InvoiceStatus::Funded) {
        return Err(InvoiceError::WrongStatus);
    }
    if ctx.invoice.escrow_bump == 0 {
        return Err(InvoiceError::EscrowNotInitialized);
    }
    if ctx.invoice.shares_mint.is_unset() || ctx.shares_mint != ctx.invoice.shares_mint {
        return Err(InvoiceError::ClaimCurrencyMissing);
    }
    check_contribution(&ctx.invoice, amount)?;
    let ops = vec![
        TokenOp::Transfer {
            from: ctx.investor_ata.key,
            to: ctx.escrow_token.key,
            authority: Authority::Signer { key: ctx.investor },
            amount,
        },
        TokenOp::MintTo {
            mint: ctx.shares_mint,
            to: ctx.investor_shares_ata.key,
            authority: Authority::Escrow {
                key: ctx.escrow_authority,
                invoice: ctx.invoice_key,
                bump: ctx.invoice.escrow_bump,
            },
            amount,
        },
    ];
    ctx.invoice.funded_amount = ctx.invoice.funded_amount + amount;
    ctx.invoice.status = InvoiceStatus::Funded;
    ctx.invoice.investor = ctx.investor;
    Ok(ops)
}

} // verus!
