use vstd::prelude::*;

verus! {

/// Why an instruction was refused. Every refusal happens before any state
/// change, so a refused instruction has no effect at all.
#[derive(Clone, Copy, Debug, PartialEq, Eq, Structural)]
pub enum InvoiceError {
    /// The invoice is not in the lifecycle state the instruction needs.
    WrongStatus,
    /// The invoice's escrow authority has not been established.
    EscrowNotInitialized,
    /// A balance is not denominated in the invoice's reference currency.
    CurrencyMismatch,
    /// The fractional-claim currency is unset or is not the one supplied.
    ClaimCurrencyMissing,
    /// The trade total does not fit in 64 bits.
    MathOverflow,
    /// The listing does not belong to the given invoice or seller.
    ListingMismatch,
    /// The requested quantity is zero or exceeds what is still listed.
    InsufficientEscrow,
    /// The contribution would take the invoice past its face amount, or a
    /// settlement does not cover exactly the funded amount.
    Overfund,
    /// A balance does not delegate to the listing's market authority.
    DelegateMissing,
    /// A delegated allowance is smaller than the trade needs.
    InsufficientAllowance,
    /// A zero amount, price or quantity, or oversized metadata.
    InvalidParameter,
    /// The caller is not the recorded admin, or a balance is not owned by
    /// the party the instruction names.
    Unauthorized,
}

} // verus!
