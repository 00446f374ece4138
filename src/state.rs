use vstd::prelude::*;

use crate::address::Address;

verus! {

/// The longest metadata hash an invoice can hold, in bytes of UTF-8.
pub const METADATA_MAX_LEN: usize = 128;

/// Decimal places of every fractional-claim currency.
pub const CLAIM_DECIMALS: u8 = 6;

/// Lifecycle of an invoice. It only ever advances: Open, Funded, Settled.
#[derive(Clone, Copy, Debug, PartialEq, Eq, Structural)]
pub enum InvoiceStatus {
    Open,
    Funded,
    Settled,
}

/// Position of a status in the lifecycle, for stating that it only advances.
pub open spec fn status_rank(s: InvoiceStatus) -> int {
    match s {
        InvoiceStatus::Open => 0,
        InvoiceStatus::Funded => 1,
        InvoiceStatus::Settled => 2,
    }
}

/// A seller's claim on a future payment, and the funding raised against it.
#[derive(Debug)]
pub struct Invoice {
    pub seller: Address,
    /// Face amount, in units of the reference currency.
    pub amount: u64,
    pub metadata_hash: String,
    pub due_date: i64,
    pub status: InvoiceStatus,
    /// The most recent contributor; earlier ones are not kept.
    pub investor: Address,
    pub funded_amount: u64,
    /// The reference currency: funding comes in and settlement goes out in it.
    pub usdc_mint: Address,
    /// Nonce of the escrow authority; zero until the escrow is established.
    pub escrow_bump: u8,
    /// The fractional-claim currency; zero until it has been created.
    pub shares_mint: Address,
}

/// Bytes of a string in UTF-8.
pub open spec fn utf8_len(s: Seq<char>) -> nat {
    vstd::utf8::encode_utf8(s).len()
}

impl Invoice {
    /// What every invoice record satisfies from its creation on.
    pub open spec fn wf(&self) -> bool {
        &&& self.amount > 0
        &&& utf8_len(self.metadata_hash@) <= METADATA_MAX_LEN
        &&& self.funded_amount <= self.amount
        &&& self.status == InvoiceStatus::Open ==> self.funded_amount == 0
    }
}

/// A standing offer to sell fractional-claim units at a fixed price.
#[derive(Clone, Copy, Debug)]
pub struct Listing {
    pub invoice: Address,
    pub seller: Address,
    pub shares_mint: Address,
    pub usdc_mint: Address,
    /// Reference-currency units per 1.000000 claim unit (six decimals).
    pub price: u64,
    /// Claim units still offered; it never grows.
    pub remaining_qty: u64,
    pub bump: u8,
    pub market_bump: u8,
}

/// The identity allowed to settle invoices.
#[derive(Clone, Copy, Debug)]
pub struct AdminConfig {
    pub admin: Address,
}

/// A balance of one currency held by one owner, as the token ledger reports
/// it.
#[derive(Clone, Copy, Debug)]
pub struct TokenAccount {
    /// Address of the balance itself.
    pub key: Address,
    pub mint: Address,
    pub owner: Address,
    pub amount: u64,
    pub delegate: Option<Address>,
    pub delegated_amount: u64,
}

/// A currency, as the token ledger reports it.
#[derive(Clone, Copy, Debug)]
pub struct Mint {
    pub key: Address,
    pub decimals: u8,
}

} // verus!
