use vstd::prelude::*;

use crate::accounts::{CreateEscrow, InitShares, MintInvoice};
use crate::address::Address;
use crate::authority::{escrow_address, find_escrow_address};
use crate::error::InvoiceError;
use crate::state::{utf8_len, Invoice, InvoiceStatus, METADATA_MAX_LEN};

verus! {

/// Why an invoice with these terms is refused, if it is: its face amount
/// must be positive and its metadata hash at most 128 bytes.
pub open spec fn mint_invoice_failure(metadata_hash: Seq<char>, amount: u64) -> Option<InvoiceError> {
    if amount == 0 || utf8_len(metadata_hash) > METADATA_MAX_LEN {
        Some(InvoiceError::InvalidParameter)
    } else {
        None
    }
}

/// A freshly registered invoice: Open, nothing funded, no contributor, no
/// escrow and no claim currency yet.
pub open spec fn is_new_invoice(
    invoice: Invoice,
    seller: Address,
    metadata_hash: String,
    amount: u64,
    due_date: i64,
    usdc_mint: Address,
) -> bool {
    &&& invoice.seller == seller
    &&& invoice.amount == amount
    &&& invoice.metadata_hash == metadata_hash
    &&& invoice.due_date == due_date
    &&& invoice.status == InvoiceStatus::Open
    &&& invoice.investor.is_zero()
    &&& invoice.funded_amount == 0
    &&& invoice.usdc_mint == usdc_mint
    &&& invoice.escrow_bump == 0
    &&& invoice.shares_mint.is_zero()
}

/// Registers an invoice of face `amount` for the seller, in the currency
/// given.
pub fn mint_invoice(ctx: &mut MintInvoice, metadata_hash: String, amount: u64, due_date: i64) -> (r:
    Result<(), InvoiceError>)
    ensures
        match mint_invoice_failure(metadata_hash@, amount) {
            Some(e) => r == Err::<(), InvoiceError>(e) && *final(ctx) == *old(ctx),
            None => {
                &&& r is Ok
                &&& is_new_invoice(
                    final(ctx).invoice,
                    old(ctx).seller,
                    metadata_hash,
                    amount,
                    due_date,
                    old(ctx).usdc_mint,
                )
                &&& final(ctx).invoice.wf()
                &&& final(ctx).seller == old(ctx).seller
                &&& final(ctx).usdc_mint == old(ctx).usdc_mint
            },
        },
{
    if amount == 0 || metadata_hash.as_str().as_bytes().len() > METADATA_MAX_LEN {
        return Err(InvoiceError::InvalidParameter);
    }
    ctx.invoice = Invoice {
        seller: ctx.seller,
        amount,
        metadata_hash,
        due_date,
        status: InvoiceStatus::Open,
        investor: Address::zero(),
        funded_amount: 0,
        usdc_mint: ctx.usdc_mint,
        escrow_bump: 0,
        shares_mint: Address::zero(),
    };
    Ok(())
}

/// Records the escrow authority found for an invoice, given what the
/// derivation returned: its nonce goes on the invoice and the authority is
/// returned. Nothing guards against doing this twice.
pub fn record_escrow(ctx: &mut CreateEscrow, found: Option<(Address, u8)>) -> (r: Result<
    Address,
    InvoiceError,
>)
    ensures
        match found {
            Some((a, bump)) => {
                &&& r == Ok::<Address, InvoiceError>(a)
                &&& *final(ctx) == (CreateEscrow {
                    invoice: Invoice { escrow_bump: bump, ..old(ctx).invoice },
                    ..*old(ctx)
                })
            },
            None => {
                &&& r == Err::<Address, InvoiceError>(InvoiceError::EscrowNotInitialized)
                &&& *final(ctx) == *old(ctx)
            },
        },
{
    match found {
        Some((a, bump)) => {
            ctx.invoice.escrow_bump = bump;
            Ok(a)
        },
        None => Err(InvoiceError::EscrowNotInitialized),
    }
}

/// Establishes the escrow of an invoice: derives its keyless authority
/// from the tag `escrow` and the invoice's address, records the nonce and
/// returns the authority, which is to own the invoice's custody balance.
pub fn create_escrow(ctx: &mut CreateEscrow) -> (r: Result<Address, InvoiceError>)
    ensures
        old(ctx).invoice.wf() ==> final(ctx).invoice.wf(),
        match escrow_address(old(ctx).invoice_key, old(ctx).program_id) {
            Some((a, bump)) => {
                &&& r is Ok && r->Ok_0.bytes@ == a
                &&& *final(ctx) == (CreateEscrow {
                    invoice: Invoice { escrow_bump: bump, ..old(ctx).invoice },
                    ..*old(ctx)
                })
            },
            None => {
                &&& r == Err::<Address, InvoiceError>(InvoiceError::EscrowNotInitialized)
                &&& *final(ctx) == *old(ctx)
            },
        },
{
    let found = find_escrow_address(&ctx.invoice_key, &ctx.program_id);
    record_escrow(ctx, found)
}

/// Records the invoice's fractional-claim currency, whose mint authority is
/// the invoice's escrow authority. Whether the escrow exists is not checked
/// here.
pub fn init_shares(ctx: &mut InitShares)
    ensures
        *final(ctx) == (InitShares {
            invoice: Invoice { shares_mint: old(ctx).shares_mint, ..old(ctx).invoice },
            ..*old(ctx)
        }),
        old(ctx).invoice.wf() ==> final(ctx).invoice.wf(),
{
    ctx.invoice.shares_mint = ctx.shares_mint;
}

} // verus!
