use vstd::prelude::*;

use crate::address::Address;
use crate::error::InvoiceError;
use crate::state::{AdminConfig, Invoice, Listing, Mint, TokenAccount};

verus! {

// The accounts each instruction reads and writes. The `*_key` fields are the
// addresses of the records next to them; `program_id` is this program's own.

pub struct MintInvoice {
    pub invoice: Invoice,
    pub seller: Address,
    pub usdc_mint: Address,
}

pub struct CreateEscrow {
    pub program_id: Address,
    pub invoice_key: Address,
    pub invoice: Invoice,
}

pub struct InitShares {
    pub invoice: Invoice,
    pub shares_mint: Address,
}

pub struct FundInvoice {
    pub invoice: Invoice,
    pub investor: Address,
    pub investor_ata: TokenAccount,
    pub escrow_token: TokenAccount,
    pub escrow_authority: Address,
}

pub struct FundInvoiceFractional {
    pub invoice_key: Address,
    pub invoice: Invoice,
    pub investor: Address,
    pub investor_ata: TokenAccount,
    pub escrow_token: TokenAccount,
    pub escrow_authority: Address,
    pub shares_mint: Address,
    pub investor_shares_ata: TokenAccount,
}

pub struct SetSettled {
    pub invoice_key: Address,
    pub invoice: Invoice,
    pub config: AdminConfig,
    pub operator: Address,
    pub seller_ata: TokenAccount,
    pub escrow_token: TokenAccount,
    pub escrow_authority: Address,
}

pub struct CreateListing {
    pub invoice_key: Address,
    pub invoice: Invoice,
    pub seller: Address,
    pub shares_mint: Address,
    pub usdc_mint: Address,
    pub listing: Listing,
    /// Nonce of the listing's own address.
    pub listing_bump: u8,
    pub market_authority: Address,
    /// Nonce of the listing's market authority.
    pub market_bump: u8,
    pub seller_shares_ata: TokenAccount,
    pub escrow_shares_ata: TokenAccount,
}

pub struct CreateListingV2 {
    pub invoice_key: Address,
    pub invoice: Invoice,
    pub seller: Address,
    pub shares_mint: Address,
    pub usdc_mint: Address,
    pub listing: Listing,
    /// Nonce of the listing's own address.
    pub listing_bump: u8,
    /// Nonce of the listing's market authority.
    pub market_bump: u8,
}

pub struct FulfillListing {
    pub invoice_key: Address,
    pub invoice: Invoice,
    pub buyer: Address,
    pub listing_key: Address,
    pub listing: Listing,
    pub market_authority: Address,
    pub buyer_usdc_ata: TokenAccount,
    pub seller_usdc_ata: TokenAccount,
    pub escrow_shares_ata: TokenAccount,
    pub buyer_shares_ata: TokenAccount,
}

pub struct CancelListing {
    pub invoice_key: Address,
    pub seller: Address,
    pub listing_key: Address,
    pub listing: Listing,
    pub market_authority: Address,
    pub escrow_shares_ata: TokenAccount,
    pub seller_shares_ata: TokenAccount,
}

pub struct FulfillListingV2 {
    pub invoice_key: Address,
    pub invoice: Invoice,
    pub buyer: Address,
    pub listing_key: Address,
    pub listing: Listing,
    pub market_authority: Address,
    pub buyer_usdc_ata: TokenAccount,
    pub seller_usdc_ata: TokenAccount,
    pub seller_shares_ata: TokenAccount,
    pub buyer_shares_ata: TokenAccount,
    pub shares_mint: Mint,
    pub usdc_mint: Mint,
}

pub struct CancelListingV2 {
    pub invoice_key: Address,
    pub seller: Address,
    pub listing_key: Address,
    pub listing: Listing,
    pub market_authority: Address,
    pub seller_shares_ata: TokenAccount,
}

pub struct InitConfig {
    pub config: AdminConfig,
}

pub struct UpdateConfig {
    pub config: AdminConfig,
    pub admin: Address,
}

/// The first of two checks that fails, if any.
pub open spec fn or_else(a: Option<InvoiceError>, b: Option<InvoiceError>) -> Option<InvoiceError> {
    if a is Some {
        a
    } else {
        b
    }
}

/// `err` unless `ok` holds.
pub open spec fn unless(ok: bool, err: InvoiceError) -> Option<InvoiceError> {
    if ok {
        None
    } else {
        Some(err)
    }
}

/// Why `acct` is not a balance of `mint` owned by `owner`, if it is not.
pub open spec fn holding_failure(
    acct: TokenAccount,
    owner: Address,
    mint: Address,
    wrong_mint: InvoiceError,
) -> Option<InvoiceError> {
    or_else(unless(acct.owner == owner, InvoiceError::Unauthorized), unless(acct.mint == mint, wrong_mint))
}

pub(crate) fn check_holding(
    acct: &TokenAccount,
    owner: &Address,
    mint: &Address,
    wrong_mint: InvoiceError,
) -> (r: Result<(), InvoiceError>)
    ensures
        match holding_failure(*acct, *owner, *mint, wrong_mint) {
            Some(e) => r == Err::<(), InvoiceError>(e),
            None => r is Ok,
        },
{
    if acct.owner != *owner {
        return Err(InvoiceError::Unauthorized);
    }
    if acct.mint != *mint {
        return Err(wrong_mint);
    }
    Ok(())
}

/// Whether `acct` currently delegates to `authority`.
pub open spec fn delegates_to(acct: TokenAccount, authority: Address) -> bool {
    acct.delegate == Some(authority)
}

pub(crate) fn check_delegates_to(acct: &TokenAccount, authority: &Address) -> (r: bool)
    ensures
        r == delegates_to(*acct, *authority),
{
    match &acct.delegate {
        Some(d) => *d == *authority,
        None => false,
    }
}

} // verus!
