use vstd::prelude::*;

use crate::accounts::{check_holding, holding_failure, or_else, unless, SetSettled};
use crate::error::InvoiceError;
use crate::ops::{Authority, TokenOp};
use crate::state::{Invoice, InvoiceStatus};

verus! {

/// Why the balances given to a settlement are refused, if they are: the
/// payout goes from the invoice's custody to the seller's own balance, both
/// in the reference currency.
pub open spec fn settle_account_failure(c: SetSettled) -> Option<InvoiceError> {
    let usdc = c.invoice.usdc_mint;
    or_else(
        holding_failure(c.seller_ata, c.invoice.seller, usdc, InvoiceError::CurrencyMismatch),
        holding_failure(c.escrow_token, c.escrow_authority, usdc, InvoiceError::CurrencyMismatch),
    )
}

/// Why settling `amount` is refused, if it is, in the order the checks are
/// made: a positive amount, a Funded invoice, exactly the funded amount,
/// and the recorded admin as caller.
pub open spec fn settle_failure(c: SetSettled, amount: u64) -> Option<InvoiceError> {
    or_else(
        settle_account_failure(c),
        or_else(
            unless(amount > 0, InvoiceError::InvalidParameter),
            or_else(
                unless(c.invoice.status == InvoiceStatus::Funded, InvoiceError::WrongStatus),
                or_else(
                    unless(c.invoice.funded_amount == amount, InvoiceError::Overfund),
                    unless(c.operator == c.config.admin, InvoiceError::Unauthorized),
                ),
            ),
        ),
    )
}

/// `invoice` once settled; nothing changes it after that.
pub open spec fn settled_invoice(invoice: Invoice) -> Invoice {
    Invoice { status: InvoiceStatus::Settled, ..invoice }
}

/// The payout of a settlement: `amount` from custody to the seller, under
/// the invoice's escrow authority.
pub open spec fn settle_ops(c: SetSettled, amount: u64) -> Seq<TokenOp> {
    seq![
        TokenOp::Transfer {
            from: c.escrow_token.key,
            to: c.seller_ata.key,
            authority: Authority::Escrow {
                key: c.escrow_authority,
                invoice: c.invoice_key,
                bump: c.invoice.escrow_bump,
            },
            amount,
        },
    ]
}

/// Pays a fully funded invoice out to its seller and closes it.
///
/// Given balances of the right parties in the reference currency and a
/// positive amount, this succeeds exactly when the invoice is Funded, the
/// amount is its whole funded amount and the caller is the admin. A refusal
/// leaves everything, the status included, as it was.
pub fn set_settled(ctx: &mut SetSettled, amount: u64) -> (r: Result<Vec<TokenOp>, InvoiceError>)
    ensures
        match r {
            Ok(ops) => {
                &&& settle_failure(*old(ctx), amount) is None
                &&& ops@ == settle_ops(*old(ctx), amount)
                &&& *final(ctx) == (SetSettled { invoice: settled_invoice(old(ctx).invoice), ..*old(ctx) })
            },
            Err(e) => {
                &&& settle_failure(*old(ctx), amount) == Some(e)
                &&& *final(ctx) == *old(ctx)
            },
        },
        settle_account_failure(*old(ctx)) is None && amount > 0 ==> (r is Ok <==> (
        old(ctx).invoice.status == InvoiceStatus::Funded && old(ctx).invoice.funded_amount
            == amount && old(ctx).operator == old(ctx).config.admin)),
        r is Err ==> final(ctx).invoice.status == old(ctx).invoice.status,
        old(ctx).invoice.wf() ==> final(ctx).invoice.wf(),
{
    let usdc = ctx.invoice.usdc_mint;
    let seller = ctx.invoice.seller;
    check_holding(&ctx.seller_ata, &seller, &usdc, InvoiceError::CurrencyMismatch)?;
    check_holding(&ctx.escrow_token, &ctx.escrow_authority, &usdc, InvoiceError::CurrencyMismatch)?;
    if amount == 0 {
        return Err(InvoiceError::InvalidParameter);
    }
    if ctx.invoice.status != InvoiceStatus::Funded {
        return Err(InvoiceError::WrongStatus);
    }
    if ctx.invoice.funded_amount != amount {
        return Err(InvoiceError::Overfund);
    }
    if ctx.operator != ctx.config.admin {
        return Err(InvoiceError::Unauthorized);
    }
    let ops = vec![
        TokenOp::Transfer {
            from: ctx.escrow_token.key,
            to: ctx.seller_ata.key,
            authority: Authority::Escrow {
                key: ctx.escrow_authority,
                invoice: ctx.invoice_key,
                bump: ctx.invoice.escrow_bump,
            },
            amount,
        },
    ];
    ctx.invoice.status = InvoiceStatus::Settled;
    Ok(ops)
}

} // verus!
